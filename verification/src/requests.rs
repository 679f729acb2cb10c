//! The request-building half of the timeline service client.
//!
//! The network work — sending, TLS, JSON decoding — happens outside; what
//! the service is asked, with which endpoint, parameters and
//! authorization, is computed here and described exactly. A request's
//! JSON body is a list of key/value pairs (the service takes a flat
//! object everywhere).

use vstd::prelude::*;

use crate::account::Account;
use crate::digits::{dec_spec, decimal_string};
use crate::state::Timeline;
use crate::tweet::Tweet;

verus! {

/// What a search returns: matching accounts and matching statuses.
#[derive(Debug)]
pub struct SearchResult {
    pub accounts: Vec<Account>,
    pub statuses: Vec<Tweet>,
}

/// The HTTP method of a request.
#[derive(Clone, Copy, Debug, PartialEq, Eq, Structural)]
pub enum Method {
    Get,
    Post,
    Delete,
}

/// One fully described request against the timeline service.
pub struct ApiRequest {
    pub method: Method,
    pub url: String,
    /// Query-string parameters, in order.
    pub query: Vec<(String, String)>,
    /// The flat JSON object sent as the body, as key/value pairs.
    pub json: Vec<(String, String)>,
    /// The complete Authorization header value, where one is sent.
    pub bearer: Option<String>,
}

/// Whether a pair holds exactly this key and value.
pub open spec fn is_pair(p: (String, String), k: Seq<char>, v: Seq<char>) -> bool {
    p.0@ == k && p.1@ == v
}

/// `base` with `path` appended.
fn join_url(base: &str, path: &str) -> (r: String)
    ensures
        r@ == base@ + path@,
{
    let mut url = String::from_str(base);
    url.append(path);
    url
}

/// One key/value pair, both sides copied in.
fn pair(k: &str, v: &str) -> (r: (String, String))
    ensures
        is_pair(r, k@, v@),
{
    (String::from_str(k), String::from_str(v))
}

/// The Authorization header value for a token.
pub fn bearer_value(token: &str) -> (r: String)
    ensures
        r@ == "Bearer "@ + token@,
{
    let mut s = String::from_str("Bearer ");
    s.append(token);
    s
}

/// Whether a response status code reports success, as HTTP defines it.
pub fn status_is_success(code: u16) -> (r: bool)
    ensures
        r == (200 <= code < 300),
{
    200 <= code && code < 300
}

/// The application-registration request: the first call against an
/// instance, asking for client credentials.
pub fn register_app_request(base: &str) -> (r: ApiRequest)
    ensures
        r.method == Method::Post,
        r.url@ == base@ + "/api/v1/apps"@,
        r.query@.len() == 0,
        r.bearer is None,
        r.json@.len() == 3,
        is_pair(r.json@[0], "client_name"@, "plerustax"@),
        is_pair(r.json@[1], "scopes"@, "read write"@),
        is_pair(r.json@[2], "redirect_uris"@, "urn:ietf:wg:oauth:2.0:oob"@),
{
    let mut json: Vec<(String, String)> = Vec::new();
    json.push(pair("client_name", "plerustax"));
    json.push(pair("scopes", "read write"));
    json.push(pair("redirect_uris", "urn:ietf:wg:oauth:2.0:oob"));
    ApiRequest {
        method: Method::Post,
        url: join_url(base, "/api/v1/apps"),
        query: Vec::new(),
        json,
        bearer: None,
    }
}

/// The password-grant login request, trading the registered client's
/// credentials and the user's for an access token.
pub fn login_request(
    base: &str,
    client_id: &str,
    client_secret: &str,
    username: &str,
    password: &str,
) -> (r: ApiRequest)
    ensures
        r.method == Method::Post,
        r.url@ == base@ + "/oauth/token"@,
        r.query@.len() == 0,
        r.bearer is None,
        r.json@.len() == 7,
        is_pair(r.json@[0], "client_id"@, client_id@),
        is_pair(r.json@[1], "client_secret"@, client_secret@),
        is_pair(r.json@[2], "redirect_uri"@, "urn:ietf:wg:oauth:2.0:oob"@),
        is_pair(r.json@[3], "grant_type"@, "password"@),
        is_pair(r.json@[4], "username"@, username@),
        is_pair(r.json@[5], "password"@, password@),
        is_pair(r.json@[6], "scope"@, "read write"@),
{
    let mut json: Vec<(String, String)> = Vec::new();
    json.push(pair("client_id", client_id));
    json.push(pair("client_secret", client_secret));
    json.push(pair("redirect_uri", "urn:ietf:wg:oauth:2.0:oob"));
    json.push(pair("grant_type", "password"));
    json.push(pair("username", username));
    json.push(pair("password", password));
    json.push(pair("scope", "read write"));
    ApiRequest {
        method: Method::Post,
        url: join_url(base, "/oauth/token"),
        query: Vec::new(),
        json,
        bearer: None,
    }
}

/// The endpoint path a timeline is fetched from: the home endpoint for
/// the home timeline, the public endpoint otherwise.
pub open spec fn timeline_path(which: Timeline) -> Seq<char> {
    if which == Timeline::Home {
        "/api/v1/timelines/home"@
    } else {
        "/api/v1/timelines/public"@
    }
}

/// A timeline fetch: optionally only what is newer than `since_id`.
pub fn timeline_request(base: &str, which: Timeline, since_id: Option<&str>, token: &str) -> (r:
    ApiRequest)
    ensures
        r.method == Method::Get,
        r.url@ == base@ + timeline_path(which),
        r.json@.len() == 0,
        r.bearer matches Some(b) && b@ == "Bearer "@ + token@,
        match since_id {
            Some(id) => r.query@.len() == 1 && is_pair(r.query@[0], "since_id"@, id@),
            None => r.query@.len() == 0,
        },
{
    let path: &str = match which {
        Timeline::Home => "/api/v1/timelines/home",
        _ => "/api/v1/timelines/public",
    };
    let mut query: Vec<(String, String)> = Vec::new();
    match since_id {
        Some(id) => {
            query.push(pair("since_id", id));
        },
        None => {},
    }
    ApiRequest {
        method: Method::Get,
        url: join_url(base, path),
        query,
        json: Vec::new(),
        bearer: Some(bearer_value(token)),
    }
}

/// A status search, optionally starting `offset` results in.
pub fn search_request(base: &str, term: &str, offset: Option<u32>, token: &str) -> (r: ApiRequest)
    ensures
        r.method == Method::Get,
        r.url@ == base@ + "/api/v2/search"@,
        r.json@.len() == 0,
        r.bearer matches Some(b) && b@ == "Bearer "@ + token@,
        is_pair(r.query@[0], "q"@, term@),
        match offset {
            Some(n) => r.query@.len() == 2 && is_pair(r.query@[1], "offset"@, dec_spec(n as nat)),
            None => r.query@.len() == 1,
        },
{
    let mut query: Vec<(String, String)> = Vec::new();
    query.push(pair("q", term));
    match offset {
        Some(n) => {
            query.push((String::from_str("offset"), decimal_string(n)));
        },
        None => {},
    }
    ApiRequest {
        method: Method::Get,
        url: join_url(base, "/api/v2/search"),
        query,
        json: Vec::new(),
        bearer: Some(bearer_value(token)),
    }
}

/// Posting a new status with the given visibility.
pub fn post_status_request(base: &str, text: &str, visibility: &str, token: &str) -> (r: ApiRequest)
    ensures
        r.method == Method::Post,
        r.url@ == base@ + "/api/v1/statuses"@,
        r.query@.len() == 0,
        r.bearer matches Some(b) && b@ == "Bearer "@ + token@,
        r.json@.len() == 4,
        is_pair(r.json@[0], "status"@, text@),
        is_pair(r.json@[1], "content_type"@, "text/plain"@),
        is_pair(r.json@[2], "source"@, "plerustax"@),
        is_pair(r.json@[3], "visibility"@, visibility@),
{
    let mut json: Vec<(String, String)> = Vec::new();
    json.push(pair("status", text));
    json.push(pair("content_type", "text/plain"));
    json.push(pair("source", "plerustax"));
    json.push(pair("visibility", visibility));
    ApiRequest {
        method: Method::Post,
        url: join_url(base, "/api/v1/statuses"),
        query: Vec::new(),
        json,
        bearer: Some(bearer_value(token)),
    }
}

/// Deleting the status with the given id.
pub fn delete_status_request(base: &str, id: &str, token: &str) -> (r: ApiRequest)
    ensures
        r.method == Method::Delete,
        r.url@ == base@ + "/api/v1/statuses/"@ + id@,
        r.query@.len() == 0,
        r.json@.len() == 0,
        r.bearer matches Some(b) && b@ == "Bearer "@ + token@,
{
    let mut url = String::from_str(base);
    url.append("/api/v1/statuses/");
    url.append(id);
    ApiRequest {
        method: Method::Delete,
        url,
        query: Vec::new(),
        json: Vec::new(),
        bearer: Some(bearer_value(token)),
    }
}

} // verus!
