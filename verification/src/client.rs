//! The Deepgram client: base URL, credentials, and the error type shared by the library.

use vstd::prelude::*;

use crate::outside::{parse_url, parsed_url, scheme_of, url_scheme, web_scheme};

verus! {

/// The URL of Deepgram's hosted API.
pub const DEEPGRAM_BASE_URL: &'static str = "https://api.deepgram.com";

/// The `user-agent` header value that the client sends.
pub const USER_AGENT: &'static str = "deepgram/0.1.0 rust";

/// Errors that the client can produce.
#[derive(Debug)]
pub enum DeepgramError {
    /// The base URL, or a URL built from it, is not a valid URL for the API.
    InvalidUrl,
    /// The server closed the WebSocket with a close frame.
    WebsocketClose {
        /// The close code.
        code: u16,
        /// The reason given.
        reason: String,
    },
    /// JSON serialization or deserialization failed.
    JsonError(serde_json::Error),
    /// The WebSocket connection failed.
    WsError(tungstenite::Error),
    /// The HTTP upgrade request could not be built.
    HttpError(http::Error),
    /// A channel to the connection's worker task was closed.
    InternalClientError(futures::channel::mpsc::SendError),
    /// The data stream handed to the client produced an error; its message.
    StreamError(String),
}

/// The result type of the client.
pub type Result<T, E = DeepgramError> = std::result::Result<T, E>;

/// How requests are authenticated.
#[derive(Debug, Clone)]
pub enum AuthMethod {
    /// An API key, sent as `Token <key>`.
    ApiKey(String),
    /// A temporary token, sent as `Bearer <token>`.
    TempToken(String),
}

/// The `authorization` header value for a credential.
pub open spec fn auth_header(auth: AuthMethod) -> Seq<char> {
    match auth {
        AuthMethod::ApiKey(key) => "Token "@ + key@,
        AuthMethod::TempToken(token) => "Bearer "@ + token@,
    }
}

impl AuthMethod {
    /// The `authorization` header value for this credential.
    pub fn header_value(&self) -> (value: String)
        ensures
            value@ == auth_header(*self),
    {
        match self {
            AuthMethod::ApiKey(key) => "Token ".to_owned().concat(key.as_str()),
            AuthMethod::TempToken(token) => "Bearer ".to_owned().concat(token.as_str()),
        }
    }
}

/// Schemes under which the client can reach the API: HTTP and WebSocket, plain or secure.
pub open spec fn api_scheme(scheme: Seq<char>) -> bool {
    web_scheme(scheme)
}

/// The base URL that a client keeps for `input`: the parsed URL, where it parses and its scheme
/// is one of the API's.
pub open spec fn accepted_base_url(input: Seq<char>) -> Option<Seq<char>> {
    match parsed_url(input) {
        Some(url) => match url_scheme(url) {
            Some(scheme) => if api_scheme(scheme) { Some(url) } else { None },
            None => None,
        },
        None => None,
    }
}

/// Whether `s` holds the text `lit`.
pub(crate) fn text_is(s: &String, lit: &str) -> (b: bool)
    ensures
        b == (s@ == lit@),
{
    let other = lit.to_owned();
    *s == other
}

/// A client of the Deepgram API.
#[derive(Debug, Clone)]
pub struct Deepgram {
    base_url: String,
    auth: Option<AuthMethod>,
}

impl Deepgram {
    /// The serialized base URL of this client.
    pub closed spec fn base_url(&self) -> Seq<char> {
        self.base_url@
    }

    /// The `authorization` header value of this client, if it has a credential.
    pub closed spec fn auth_value(&self) -> Option<Seq<char>> {
        match self.auth {
            Some(auth) => Some(auth_header(auth)),
            None => None,
        }
    }

    /// The serialized base URL of this client.
    pub fn base_url_text(&self) -> (url: &str)
        ensures
            url@ == self.base_url(),
    {
        self.base_url.as_str()
    }

    /// The `authorization` header value of this client, if it has a credential.
    pub fn authorization(&self) -> (value: Option<String>)
        ensures
            value is Some <==> self.auth_value() is Some,
            value is Some ==> value->0@ == self.auth_value()->0,
    {
        match &self.auth {
            Some(auth) => Some(auth.header_value()),
            None => None,
        }
    }

    fn with_auth(base_url: &str, auth: Option<AuthMethod>) -> (res: Result<Deepgram>)
        ensures
            res is Ok <==> accepted_base_url(base_url@) is Some,
            res is Ok ==> res->Ok_0.base_url() == accepted_base_url(base_url@)->0
                && res->Ok_0.auth_value() == (match auth { Some(a) => Some(auth_header(a)), None => None }),
            res is Err ==> res->Err_0 is InvalidUrl,
    {
        let url = match parse_url(base_url) {
            Ok(url) => url,
            Err(_) => return Err(DeepgramError::InvalidUrl),
        };
        let scheme = match scheme_of(url.as_str()) {
            Some(scheme) => scheme,
            None => return Err(DeepgramError::InvalidUrl),
        };
        if text_is(&scheme, "http") || text_is(&scheme, "https") || text_is(&scheme, "ws") || text_is(&scheme, "wss") {
            Ok(Deepgram { base_url: url, auth })
        } else {
            Err(DeepgramError::InvalidUrl)
        }
    }

    /// A client of Deepgram's hosted API that authenticates with an API key.
    pub fn new(api_key: &str) -> (res: Result<Deepgram>)
        ensures
            res is Ok <==> accepted_base_url(DEEPGRAM_BASE_URL@) is Some,
            res is Ok ==> res->Ok_0.base_url() == accepted_base_url(DEEPGRAM_BASE_URL@)->0
                && res->Ok_0.auth_value() == Some("Token "@ + api_key@),
            res is Err ==> res->Err_0 is InvalidUrl,
    {
        Self::with_auth(DEEPGRAM_BASE_URL, Some(AuthMethod::ApiKey(api_key.to_owned())))
    }

    /// A client of the API at `base_url`, without a credential (for self-hosted servers).
    /// Fails with [`DeepgramError::InvalidUrl`] unless the URL parses with an HTTP or
    /// WebSocket scheme.
    pub fn with_base_url(base_url: &str) -> (res: Result<Deepgram>)
        ensures
            res is Ok <==> accepted_base_url(base_url@) is Some,
            res is Ok ==> res->Ok_0.base_url() == accepted_base_url(base_url@)->0 && res->Ok_0.auth_value() is None,
            res is Err ==> res->Err_0 is InvalidUrl,
    {
        Self::with_auth(base_url, None)
    }

    /// A client of the API at `base_url` that authenticates with an API key.
    /// Fails with [`DeepgramError::InvalidUrl`] unless the URL parses with an HTTP or
    /// WebSocket scheme.
    pub fn with_base_url_and_api_key(base_url: &str, api_key: &str) -> (res: Result<Deepgram>)
        ensures
            res is Ok <==> accepted_base_url(base_url@) is Some,
            res is Ok ==> res->Ok_0.base_url() == accepted_base_url(base_url@)->0
                && res->Ok_0.auth_value() == Some("Token "@ + api_key@),
            res is Err ==> res->Err_0 is InvalidUrl,
    {
        Self::with_auth(base_url, Some(AuthMethod::ApiKey(api_key.to_owned())))
    }
}

} // verus!
