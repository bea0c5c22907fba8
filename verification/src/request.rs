use vstd::prelude::*;
use vstd::string::StringExecFns;

use crate::errors::Error;

verus! {

/// The single request-shape abstraction the whole client is built around:
/// exactly one variant is active per call, `Get` and `Delete` carry only a
/// query object, and the body-bearing variants `Post`, `Patch` and `Put`
/// always pair a query with a body.
#[derive(Debug)]
pub enum Method<Q, B> {
    Get { query: Q },
    Post { query: Q, body: B },
    Patch { query: Q, body: B },
    Put { query: Q, body: B },
    Delete { query: Q },
}

/// The HTTP verb of a request shape, without its payload.
#[derive(Debug, Clone, Copy, PartialEq, Eq, Structural)]
pub enum Verb {
    Get,
    Post,
    Patch,
    Put,
    Delete,
}

/// The verb a request shape dispatches as.
pub open spec fn verb_of<Q, B>(m: Method<Q, B>) -> Verb {
    match m {
        Method::Get { .. } => Verb::Get,
        Method::Post { .. } => Verb::Post,
        Method::Patch { .. } => Verb::Patch,
        Method::Put { .. } => Verb::Put,
        Method::Delete { .. } => Verb::Delete,
    }
}

/// Whether a request shape carries a body beside its query.
pub open spec fn has_body<Q, B>(m: Method<Q, B>) -> bool {
    m is Post || m is Patch || m is Put
}

/// A URL with an encoded query appended: unchanged when the encoding is
/// empty, otherwise the URL, exactly one '?', and the parameters.
pub open spec fn with_query(url: Seq<char>, query: Seq<char>) -> Seq<char> {
    if query.len() == 0 {
        url
    } else {
        url + seq!['?'] + query
    }
}

/// Relies on yaup::to_string: serializes a query object into flat URL
/// parameter form, without a leading '?' and empty when the object has no
/// parameters to give. Nothing is promised of the outcome: it depends on
/// the query type's Serialize implementation. The failure detail is yaup's
/// own message.
#[verifier::external_body]
fn encode_query<Query: serde::Serialize>(query: &Query) -> (r: Result<String, String>) {
    match yaup::to_string(query) {
        Ok(s) => Ok(s),
        Err(e) => Err(e.to_string()),
    }
}

/// Appends an already-encoded query to a URL: the URL comes back unchanged
/// when the encoding is empty, and otherwise gains exactly one '?'
/// followed by the parameters.
pub fn append_query(url: &str, encoded: &str) -> (r: String)
    ensures
        r@ == with_query(url@, encoded@),
{
    if encoded.is_empty() {
        url.to_owned()
    } else {
        let mut s = url.to_owned();
        s.append("?");
        s.append(encoded);
        proof {
            reveal_strlit("?");
            assert(s@ =~= with_query(url@, encoded@));
        }
        s
    }
}

/// Serializes `query` and appends it to `url`. The URL is unchanged when
/// the query object encodes to nothing, and otherwise gains exactly one
/// '?' followed by the encoded parameters. A query object that cannot be
/// serialized into key-value form fails with an `EncodingError`, and
/// nothing else fails.
pub fn add_query_parameters<Query: serde::Serialize>(url: &str, query: &Query) -> (r: Result<
    String,
    Error,
>)
    ensures
        r matches Ok(s) ==> (exists|q: Seq<char>| s@ == with_query(url@, q)),
        r matches Err(e) ==> e@ is EncodingError,
{
    match encode_query(query) {
        Ok(encoded) => {
            let s = append_query(url, encoded.as_str());
            proof {
                assert(s@ == with_query(url@, encoded@));
            }
            Ok(s)
        },
        Err(d) => Err(Error::EncodingError(d)),
    }
}

/// The user-agent text identifying this client: the client name and its
/// version, with "unknown" standing in when no version metadata was
/// available at build time.
pub open spec fn user_agent_of(version: Option<Seq<char>>) -> Seq<char> {
    match version {
        Some(v) => "Meilisearch Rust (v"@ + v + ")"@,
        None => "Meilisearch Rust (vunknown)"@,
    }
}

/// Renders the user-agent string for a version read from build-time
/// package metadata, or for its absence.
pub fn qualified_version(version: Option<&str>) -> (r: String)
    ensures
        version matches Some(v) ==> r@ == user_agent_of(Some(v@)),
        version is None ==> r@ == user_agent_of(None),
{
    let mut s = String::from_str("Meilisearch Rust (v");
    match version {
        Some(v) => s.append(v),
        None => s.append("unknown"),
    }
    s.append(")");
    proof {
        reveal_strlit("Meilisearch Rust (v");
        reveal_strlit("unknown");
        reveal_strlit(")");
        reveal_strlit("Meilisearch Rust (vunknown)");
        if version is None {
            assert(s@ =~= user_agent_of(None));
        }
    }
    s
}

/// The value of the bearer-style authorization header for an API key.
pub open spec fn bearer_of(key: Seq<char>) -> Seq<char> {
    "Bearer "@ + key
}

/// Renders the authorization header value for an API key.
pub fn bearer_token(apikey: &str) -> (r: String)
    ensures
        r@ == bearer_of(apikey@),
{
    let mut s = String::from_str("Bearer ");
    s.append(apikey);
    s
}

/// The default headers of every request: the user agent always, and the
/// bearer authorization value exactly when an API key is supplied.
pub struct RequestHeaders {
    pub user_agent: String,
    pub bearer: Option<String>,
}

/// Computes the default headers from the build-time version metadata and
/// the optional API key.
pub fn build_headers(version: Option<&str>, apikey: Option<&str>) -> (h: RequestHeaders)
    ensures
        version matches Some(v) ==> h.user_agent@ == user_agent_of(Some(v@)),
        version is None ==> h.user_agent@ == user_agent_of(None),
        apikey matches Some(k) ==> (h.bearer matches Some(b) && b@ == bearer_of(k@)),
        apikey is None ==> h.bearer is None,
{
    let user_agent = qualified_version(version);
    let bearer = match apikey {
        Some(k) => Some(bearer_token(k)),
        None => None,
    };
    RequestHeaders { user_agent, bearer }
}

/// A buffered request, fully computed: the verb, the URL with the encoded
/// query appended, and, for body-bearing shapes, the JSON text of the body
/// together with the "application/json" content type.
pub struct RequestPlan {
    pub verb: Verb,
    pub url: String,
    pub content_type: Option<String>,
    pub body: Option<String>,
}

/// Relies on serde_json::to_string: serializes a body object as JSON text.
/// Nothing is promised of the outcome: it depends on the body type's
/// Serialize implementation. The failure detail is serde_json's own
/// message.
#[verifier::external_body]
fn encode_json_body<Body: serde::Serialize>(body: &Body) -> (r: Result<String, String>) {
    match serde_json::to_string(body) {
        Ok(s) => Ok(s),
        Err(e) => Err(e.to_string()),
    }
}

/// Computes everything a transport needs to issue a buffered call: the
/// verb of the request shape, the URL with the encoded query appended, and
/// the serialized JSON body with the "application/json" content type
/// exactly for the body-bearing shapes. A query or body object that cannot
/// be serialized fails with an `EncodingError`, and nothing else fails.
pub fn build_request_plan<Query: serde::Serialize, Body: serde::Serialize>(
    url: &str,
    method: &Method<Query, Body>,
) -> (r: Result<RequestPlan, Error>)
    ensures
        r matches Ok(p) ==> {
            &&& p.verb == verb_of(*method)
            &&& (exists|q: Seq<char>| p.url@ == with_query(url@, q))
            &&& (has_body(*method) ==> (p.content_type matches Some(c) && c@
                == "application/json"@))
            &&& (has_body(*method) ==> p.body is Some)
            &&& (!has_body(*method) ==> p.content_type is None && p.body is None)
        },
        r matches Err(e) ==> e@ is EncodingError,
{
    match method {
        Method::Get { query } => {
            let u = match add_query_parameters(url, query) {
                Ok(u) => u,
                Err(e) => {
                    return Err(e);
                },
            };
            Ok(RequestPlan { verb: Verb::Get, url: u, content_type: None, body: None })
        },
        Method::Delete { query } => {
            let u = match add_query_parameters(url, query) {
                Ok(u) => u,
                Err(e) => {
                    return Err(e);
                },
            };
            Ok(RequestPlan { verb: Verb::Delete, url: u, content_type: None, body: None })
        },
        Method::Post { query, body } => {
            let u = match add_query_parameters(url, query) {
                Ok(u) => u,
                Err(e) => {
                    return Err(e);
                },
            };
            let b = match encode_json_body(body) {
                Ok(b) => b,
                Err(d) => {
                    return Err(Error::EncodingError(d));
                },
            };
            Ok(
                RequestPlan {
                    verb: Verb::Post,
                    url: u,
                    content_type: Some(String::from_str("application/json")),
                    body: Some(b),
                },
            )
        },
        Method::Patch { query, body } => {
            let u = match add_query_parameters(url, query) {
                Ok(u) => u,
                Err(e) => {
                    return Err(e);
                },
            };
            let b = match encode_json_body(body) {
                Ok(b) => b,
                Err(d) => {
                    return Err(Error::EncodingError(d));
                },
            };
            Ok(
                RequestPlan {
                    verb: Verb::Patch,
                    url: u,
                    content_type: Some(String::from_str("application/json")),
                    body: Some(b),
                },
            )
        },
        Method::Put { query, body } => {
            let u = match add_query_parameters(url, query) {
                Ok(u) => u,
                Err(e) => {
                    return Err(e);
                },
            };
            let b = match encode_json_body(body) {
                Ok(b) => b,
                Err(d) => {
                    return Err(Error::EncodingError(d));
                },
            };
            Ok(
                RequestPlan {
                    verb: Verb::Put,
                    url: u,
                    content_type: Some(String::from_str("application/json")),
                    body: Some(b),
                },
            )
        },
    }
}

/// A streaming request, computed up to its body: the verb, the URL with
/// the encoded query appended, and, for body-bearing shapes, the
/// caller-supplied content type. The byte stream itself travels beside the
/// plan, so the transport can attach it verbatim without this layer
/// buffering it.
pub struct StreamPlan {
    pub verb: Verb,
    pub url: String,
    pub content_type: Option<String>,
}

/// Computes everything but the byte stream a transport needs to issue a
/// streaming call, and hands the stream back out beside the plan: the
/// body-bearing shapes yield their stream and carry the caller-supplied
/// content type, the others yield no stream and no content type. A query
/// object that cannot be serialized fails with an `EncodingError`, and
/// nothing else fails.
pub fn build_stream_plan<Query: serde::Serialize, Body>(
    url: &str,
    method: Method<Query, Body>,
    content_type: &str,
) -> (r: Result<(StreamPlan, Option<Body>), Error>)
    ensures
        r matches Ok(pb) ==> {
            &&& pb.0.verb == verb_of(method)
            &&& (exists|q: Seq<char>| pb.0.url@ == with_query(url@, q))
            &&& (has_body(method) ==> (pb.0.content_type matches Some(c) && c@ == content_type@))
            &&& (!has_body(method) ==> pb.0.content_type is None)
            &&& (match method {
                Method::Post { body, .. } => pb.1 matches Some(b) && b == body,
                Method::Patch { body, .. } => pb.1 matches Some(b) && b == body,
                Method::Put { body, .. } => pb.1 matches Some(b) && b == body,
                _ => pb.1 is None,
            })
        },
        r matches Err(e) ==> e@ is EncodingError,
{
    match method {
        Method::Get { query } => {
            let u = match add_query_parameters(url, &query) {
                Ok(u) => u,
                Err(e) => {
                    return Err(e);
                },
            };
            Ok((StreamPlan { verb: Verb::Get, url: u, content_type: None }, None))
        },
        Method::Delete { query } => {
            let u = match add_query_parameters(url, &query) {
                Ok(u) => u,
                Err(e) => {
                    return Err(e);
                },
            };
            Ok((StreamPlan { verb: Verb::Delete, url: u, content_type: None }, None))
        },
        Method::Post { query, body } => {
            let u = match add_query_parameters(url, &query) {
                Ok(u) => u,
                Err(e) => {
                    return Err(e);
                },
            };
            Ok(
                (
                    StreamPlan { verb: Verb::Post, url: u, content_type: Some(
                        content_type.to_owned(),
                    ) },
                    Some(body),
                ),
            )
        },
        Method::Patch { query, body } => {
            let u = match add_query_parameters(url, &query) {
                Ok(u) => u,
                Err(e) => {
                    return Err(e);
                },
            };
            Ok(
                (
                    StreamPlan { verb: Verb::Patch, url: u, content_type: Some(
                        content_type.to_owned(),
                    ) },
                    Some(body),
                ),
            )
        },
        Method::Put { query, body } => {
            let u = match add_query_parameters(url, &query) {
                Ok(u) => u,
                Err(e) => {
                    return Err(e);
                },
            };
            Ok(
                (
                    StreamPlan { verb: Verb::Put, url: u, content_type: Some(
                        content_type.to_owned(),
                    ) },
                    Some(body),
                ),
            )
        },
    }
}

/// The transport backed by the reqwest HTTP library. The structure itself
/// is stateless: it only marks which backend executes the plans this
/// module computes, and a surrounding crate drives the actual network
/// call.
#[derive(Debug, Clone, Copy)]
pub struct ReqwestClient;

impl ReqwestClient {
    /// A new reqwest-backed transport.
    pub fn new() -> (c: ReqwestClient)
        ensures
            c == (ReqwestClient {  }),
    {
        ReqwestClient
    }
}

} // verus!
