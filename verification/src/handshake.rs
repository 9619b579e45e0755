//! The HTTP upgrade request that opens a WebSocket connection to the API.

use vstd::prelude::*;

use crate::client::{Deepgram, DeepgramError, Result, USER_AGENT};
use crate::outside::{base64_char, generate_websocket_key, host_of, url_host, url_scheme};
use crate::websocket_url::has_websocket_scheme;
use crate::text::{option_text, optional_pair, pair_views};

verus! {

/// An HTTP `GET` request that asks to upgrade to a WebSocket: its URI and headers.
#[derive(Debug, Clone)]
pub struct HandshakeRequest {
    /// The URI requested.
    pub uri: String,
    /// The headers, in the order they are sent.
    pub headers: Vec<(String, String)>,
}

/// The headers of the upgrade request to `host`: the WebSocket key, the host, the upgrade
/// headers of RFC 6455, the user agent, and the authorization where there is a credential.
pub open spec fn handshake_headers(host: Seq<char>, key: Seq<char>, auth: Option<Seq<char>>) -> Seq<(Seq<char>, Seq<char>)> {
    seq![
        ("sec-websocket-key"@, key),
        ("host"@, host),
        ("connection"@, "upgrade"@),
        ("upgrade"@, "websocket"@),
        ("sec-websocket-version"@, "13"@),
        ("user-agent"@, USER_AGENT@),
    ] + optional_pair("authorization"@, auth)
}

/// A WebSocket key as RFC 6455 asks: 16 bytes in base64, that is 22 characters of the
/// base64 alphabet followed by `==`.
pub open spec fn valid_websocket_key(key: Seq<char>) -> bool {
    &&& key.len() == 24
    &&& forall|i: int| 0 <= i < 22 ==> base64_char(#[trigger] key[i])
    &&& key[22] == '=' && key[23] == '='
}

/// `req` is the upgrade request for `url` with credential `auth` and some valid key.
pub open spec fn handshake_matches(req: HandshakeRequest, url: Seq<char>, auth: Option<Seq<char>>) -> bool {
    let headers = pair_views(req.headers@);
    &&& req.uri@ == url
    &&& url_host(url) is Some
    &&& headers.len() > 0
    &&& valid_websocket_key(headers[0].1)
    &&& headers == handshake_headers(url_host(url)->0, headers[0].1, auth)
}

/// The upgrade request for `url` with the given key and `authorization` header value. Fails
/// with [`DeepgramError::InvalidUrl`] where the URL has no host.
pub fn handshake_request(url: String, key: String, authorization: Option<String>) -> (res: Result<HandshakeRequest>)
    ensures
        res is Ok <==> url_host(url@) is Some,
        has_websocket_scheme(url@) ==> res is Ok,
        res is Ok ==> res->Ok_0.uri@ == url@ && pair_views(res->Ok_0.headers@) == handshake_headers(
            url_host(url@)->0,
            key@,
            option_text(authorization),
        ),
        res is Err ==> res->Err_0 is InvalidUrl,
{
    let host = match host_of(url.as_str()) {
        Some(host) => host,
        None => return Err(DeepgramError::InvalidUrl),
    };
    let mut headers: Vec<(String, String)> = Vec::new();
    headers.push(("sec-websocket-key".to_owned(), key));
    headers.push(("host".to_owned(), host));
    headers.push(("connection".to_owned(), "upgrade".to_owned()));
    headers.push(("upgrade".to_owned(), "websocket".to_owned()));
    headers.push(("sec-websocket-version".to_owned(), "13".to_owned()));
    headers.push(("user-agent".to_owned(), USER_AGENT.to_owned()));
    let ghost fixed = pair_views(headers@);
    let ghost auth_view = option_text(authorization);
    if let Some(value) = authorization {
        headers.push(("authorization".to_owned(), value));
    }
    assert(pair_views(headers@) =~= fixed + optional_pair("authorization"@, auth_view));
    Ok(HandshakeRequest { uri: url, headers })
}

/// The upgrade request for `url` on behalf of `deepgram`, with a fresh random key.
pub fn handshake_for(url: String, deepgram: &Deepgram) -> (res: Result<HandshakeRequest>)
    ensures
        res is Ok <==> url_host(url@) is Some,
        has_websocket_scheme(url@) ==> res is Ok,
        res is Ok ==> handshake_matches(res->Ok_0, url@, deepgram.auth_value()),
        res is Err ==> res->Err_0 is InvalidUrl,
{
    let key = generate_websocket_key();
    let ghost key_view = key@;
    let authorization = deepgram.authorization();
    let res = handshake_request(url, key, authorization);
    proof {
        if res is Ok {
            let headers = pair_views(res->Ok_0.headers@);
            assert(headers[0].1 == key_view);
        }
    }
    res
}

} // verus!
