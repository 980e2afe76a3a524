use vstd::prelude::*;
use vstd::string::StringExecFns;

use crate::config::ServerConfig;

verus! {

/// A GET request to make: the full URL, and the `Authorization` header
/// value where the request is authenticated.
#[derive(Debug)]
pub struct GetRequest {
    pub url: String,
    pub authorization: Option<String>,
}

/// The admin endpoint that reports the server's version.
pub const SERVER_VERSION_ENDPOINT: &'static str = "_synapse/admin/v1/server_version";

/// The admin endpoint that lists the accounts, guests included, from the first
/// one on (a single page).
pub const USER_LIST_ENDPOINT: &'static str = "_synapse/admin/v2/users?from=0&guests=true";

/// The URL of `endpoint` on the server at `base`.
pub open spec fn endpoint_url(base: Seq<char>, endpoint: Seq<char>) -> Seq<char> {
    base + "/"@ + endpoint
}

/// The `Authorization` header value that carries `token`.
pub open spec fn bearer_header(token: Seq<char>) -> Seq<char> {
    "Bearer "@ + token
}

/// Describes a GET of `api_endpoint` on the server of `server_config`,
/// authenticated where an access token is given.
pub fn make_get_request(
    server_config: &ServerConfig,
    api_endpoint: &str,
    access_token: Option<&str>,
) -> (r: GetRequest)
    ensures
        r.url@ == endpoint_url(server_config.server_url@, api_endpoint@),
        match access_token {
            Some(a) => r.authorization matches Some(h) && h@ == bearer_header(a@),
            None => r.authorization is None,
        },
{
    let authorization = match access_token {
        Some(a) => {
            let mut h = String::from_str("Bearer ");
            h.append(a);
            Some(h)
        },
        None => None,
    };
    let mut url = server_config.server_url.clone();
    url.append("/");
    url.append(api_endpoint);
    GetRequest { url, authorization }
}

/// The unauthenticated request for the server's version.
pub fn server_version_request(server_config: &ServerConfig) -> (r: GetRequest)
    ensures
        r.url@ == endpoint_url(server_config.server_url@, SERVER_VERSION_ENDPOINT@),
        r.authorization is None,
{
    make_get_request(server_config, SERVER_VERSION_ENDPOINT, None)
}

/// The request for the list of accounts, authenticated with `access_token`.
pub fn user_list_request(server_config: &ServerConfig, access_token: &str) -> (r: GetRequest)
    ensures
        r.url@ == endpoint_url(server_config.server_url@, USER_LIST_ENDPOINT@),
        r.authorization matches Some(h) && h@ == bearer_header(access_token@),
{
    make_get_request(server_config, USER_LIST_ENDPOINT, Some(access_token))
}

} // verus!
