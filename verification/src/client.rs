//! The client handle: where the service lives and the token that opens it.

use vstd::prelude::*;
use vstd::string::StringExecFns;

verus! {

/// The host that serves the REST API unless another is given.
pub open spec fn default_api_host() -> Seq<char> {
    "api.hiven.io"@
}

/// The host that serves the gateway unless another is given.
pub open spec fn default_gateway_host() -> Seq<char> {
    "swarm-dev.hiven.io"@
}

/// The address of the gateway's socket on `host`.
pub open spec fn gateway_url_of(host: Seq<char>) -> Seq<char> {
    "wss://"@ + host + "/socket"@
}

/// The address of the REST resource `path` on `host`.
pub open spec fn api_url_of(host: Seq<char>, path: Seq<char>) -> Seq<char> {
    "https://"@ + host + "/v1"@ + path
}

/// Whether a request with this method carries a body, and so a content type.
pub open spec fn method_has_body(method: Seq<char>) -> bool {
    method != "GET"@
}

/// The headers of a request with this method that `token` authorizes, each as a name and a
/// value: the authorization, and the content type where the request carries a body.
pub open spec fn headers_of(token: Seq<char>, method: Seq<char>) -> Seq<(Seq<char>, Seq<char>)> {
    if method_has_body(method) {
        seq![("authorization"@, token), ("content-type"@, "application/json"@)]
    } else {
        seq![("authorization"@, token)]
    }
}

/// A client of the service: the two hosts and the session token. Event callbacks receive it
/// by reference; it holds no connection of its own.
#[derive(Clone, Copy, Debug, PartialEq, Eq)]
pub struct Client<'u, 't> {
    addresses: (&'u str, &'u str),
    token: &'t str,
}

impl<'u, 't> Client<'u, 't> {
    /// The host of the REST API.
    pub closed spec fn spec_api_host(&self) -> Seq<char> {
        self.addresses.0@
    }

    /// The host of the gateway.
    pub closed spec fn spec_gateway_host(&self) -> Seq<char> {
        self.addresses.1@
    }

    /// The session token.
    pub closed spec fn spec_token(&self) -> Seq<char> {
        self.token@
    }

    /// A client for the default hosts.
    pub fn new(token: &'t str) -> (client: Self)
        ensures
            client.spec_token() == token@,
            client.spec_api_host() == default_api_host(),
            client.spec_gateway_host() == default_gateway_host(),
    {
        Self { addresses: ("api.hiven.io", "swarm-dev.hiven.io"), token: token }
    }

    /// A client for hosts of the caller's choice.
    pub fn with_hosts(token: &'t str, api_host: &'u str, gateway_host: &'u str) -> (client: Self)
        ensures
            client.spec_token() == token@,
            client.spec_api_host() == api_host@,
            client.spec_gateway_host() == gateway_host@,
    {
        Self { addresses: (api_host, gateway_host), token: token }
    }

    /// The session token, which logs the gateway session in and authorizes each REST request.
    pub fn token(&self) -> (token: &'t str)
        ensures
            token@ == self.spec_token(),
    {
        self.token
    }

    /// The host of the REST API.
    pub fn api_host(&self) -> (host: &'u str)
        ensures
            host@ == self.spec_api_host(),
    {
        self.addresses.0
    }

    /// The host of the gateway.
    pub fn gateway_host(&self) -> (host: &'u str)
        ensures
            host@ == self.spec_gateway_host(),
    {
        self.addresses.1
    }

    /// The address at which a session connects.
    pub fn gateway_url(&self) -> (url: String)
        ensures
            url@ == gateway_url_of(self.spec_gateway_host()),
    {
        let mut url = String::from_str("wss://");
        url.append(self.addresses.1);
        url.append("/socket");
        url
    }

    /// The address of the REST resource `path`, which starts with a slash.
    pub fn api_url(&self, path: &str) -> (url: String)
        ensures
            url@ == api_url_of(self.spec_api_host(), path@),
    {
        let mut url = String::from_str("https://");
        url.append(self.addresses.0);
        url.append("/v1");
        url.append(path);
        url
    }

    /// The headers of a REST request with this method, each as a name and a value.
    pub fn headers(&self, method: &str) -> (headers: Vec<(&'static str, String)>)
        ensures
            headers@.len() == headers_of(self.spec_token(), method@).len(),
            forall|i: int|
                0 <= i < headers@.len() ==> (#[trigger] headers@[i].0@, headers@[i].1@)
                    == headers_of(self.spec_token(), method@)[i],
    {
        let mut headers: Vec<(&'static str, String)> = Vec::new();
        headers.push(("authorization", self.token.to_owned()));
        if has_body(method) {
            headers.push(("content-type", String::from_str("application/json")));
        }
        headers
    }
}

/// Whether a request with this method carries a body: every method but `GET` does.
pub fn has_body(method: &str) -> (carries: bool)
    ensures
        carries == method_has_body(method@),
{
    method.to_owned() != String::from_str("GET")
}

} // verus!
