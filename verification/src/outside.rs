//! What the library takes from outside crates, with what it assumes of each.

use vstd::prelude::*;

use crate::text::{form_pairs, pair_views};

verus! {

/// The error type of `serde_urlencoded`'s serializer, carried as it is.
#[verifier::external_type_specification]
#[verifier::external_body]
pub struct ExUrlEncodedError(serde_urlencoded::ser::Error);

/// Calls `serde_urlencoded::to_string` on a list of string pairs.
///
/// Assumed: the call succeeds, and gives the pairs as `key=value` joined by `&`, each side
/// form-urlencoded (through `form_urlencoded::Serializer::append_pair`).
#[verifier::external_body]
pub(crate) fn form_urlencode_pairs(pairs: &Vec<(String, String)>) -> (res: Result<String, serde_urlencoded::ser::Error>)
    ensures
        res is Ok,
        res->Ok_0@ == form_pairs(pair_views(pairs@)),
{
    serde_urlencoded::to_string(pairs)
}

} // verus!

verus! {

/// The error type of `url`'s parser, carried as it is.
#[verifier::external_type_specification]
#[verifier::external_body]
pub struct ExUrlParseError(url::ParseError);

/// The serialization of the URL that `url::Url::parse` makes of `input`; `None` where it
/// refuses the input.
pub uninterp spec fn parsed_url(input: Seq<char>) -> Option<Seq<char>>;

/// Calls `url::Url::parse` and hands back the serialization of the URL it builds.
///
/// Assumed: the result is `parsed_url(input)`; nothing more is said of URL parsing.
#[verifier::external_body]
pub(crate) fn parse_url(input: &str) -> (res: Result<String, url::ParseError>)
    ensures
        res is Ok <==> parsed_url(input@) is Some,
        res is Ok ==> res->Ok_0@ == parsed_url(input@)->0,
{
    url::Url::parse(input).map(String::from)
}

/// The serialization of `url::Url::join(&base, input)`, `base` being the URL parsed from
/// `base`; `None` where either step fails.
pub uninterp spec fn joined_url(base: Seq<char>, input: Seq<char>) -> Option<Seq<char>>;

/// Parses `base` and calls `url::Url::join` on it with `input`.
///
/// Assumed: the result is `joined_url(base, input)`.
#[verifier::external_body]
pub(crate) fn join_url(base: &str, input: &str) -> (res: Result<String, url::ParseError>)
    ensures
        res is Ok <==> joined_url(base@, input@) is Some,
        res is Ok ==> res->Ok_0@ == joined_url(base@, input@)->0,
{
    url::Url::parse(base)?.join(input).map(String::from)
}

/// The schemes of HTTP and WebSocket URLs, plain or secure.
pub open spec fn web_scheme(scheme: Seq<char>) -> bool {
    scheme == "http"@ || scheme == "https"@ || scheme == "ws"@ || scheme == "wss"@
}

/// The text before the first `:`, or all of it where there is none.
pub open spec fn text_before_colon(s: Seq<char>) -> Seq<char>
    decreases s.len(),
{
    if s.len() == 0 || s[0] == ':' {
        Seq::empty()
    } else {
        seq![s[0]] + text_before_colon(s.drop_first())
    }
}

/// What `url::Url::scheme` gives for the URL parsed from `url`: the text of the parsed URL's
/// serialization before its first `:` (a scheme has no `:` and the serialization puts one
/// right after it); `None` where `url` does not parse.
pub open spec fn url_scheme(url: Seq<char>) -> Option<Seq<char>> {
    match parsed_url(url) {
        Some(serialized) => Some(text_before_colon(serialized)),
        None => None,
    }
}

/// Parses `url` and calls `url::Url::scheme` on it.
///
/// Assumed: the result is `url_scheme(url)`, the text before the first `:` of the parsed URL.
#[verifier::external_body]
pub(crate) fn scheme_of(url: &str) -> (res: Option<String>)
    ensures
        res is Some <==> url_scheme(url@) is Some,
        res is Some <==> parsed_url(url@) is Some,
        res is Some ==> res->0@ == url_scheme(url@)->0,
{
    match url::Url::parse(url) {
        Ok(parsed) => Some(parsed.scheme().to_owned()),
        Err(_) => None,
    }
}

/// The serialization of the URL parsed from `url` after `url::Url::set_scheme(scheme)`;
/// `None` where parsing or `set_scheme` fails.
pub uninterp spec fn url_with_scheme(url: Seq<char>, scheme: Seq<char>) -> Option<Seq<char>>;

/// Parses `url` and calls `url::Url::set_scheme` on it.
///
/// Assumed: the result is `url_with_scheme(url, scheme)`. Switching a URL with an HTTP or
/// WebSocket scheme to `ws` or `wss` succeeds (both schemes are special and such a URL has a
/// host), and the URL then has that scheme.
#[verifier::external_body]
pub(crate) fn set_scheme_of(url: &str, scheme: &str) -> (res: Result<String, ()>)
    ensures
        res is Ok <==> url_with_scheme(url@, scheme@) is Some,
        res is Ok ==> res->Ok_0@ == url_with_scheme(url@, scheme@)->0,
        url_scheme(url@) is Some && web_scheme(url_scheme(url@)->0) && (scheme@ == "ws"@ || scheme@ == "wss"@)
            ==> res is Ok && url_scheme(res->Ok_0@) == Some(scheme@),
{
    let mut parsed = match url::Url::parse(url) {
        Ok(parsed) => parsed,
        Err(_) => return Err(()),
    };
    parsed.set_scheme(scheme)?;
    Ok(parsed.into())
}

/// The serialization of the URL parsed from `url` after each pair was appended, in order,
/// through `url::Url::query_pairs_mut().append_pair(key, value)`; `None` where `url` does
/// not parse.
pub uninterp spec fn url_with_query(url: Seq<char>, pairs: Seq<(Seq<char>, Seq<char>)>) -> Option<Seq<char>>;

/// Parses `url` and appends the pairs to its query with `url::Url::query_pairs_mut`.
///
/// Assumed: the result is `url_with_query(url, pairs)`. It succeeds for every URL that parses
/// (one with a scheme), and keeps its scheme and host: only the query changes.
#[verifier::external_body]
pub(crate) fn append_query_pairs(url: &str, pairs: &Vec<(String, String)>) -> (res: Result<String, url::ParseError>)
    ensures
        res is Ok <==> url_with_query(url@, pair_views(pairs@)) is Some,
        res is Ok ==> res->Ok_0@ == url_with_query(url@, pair_views(pairs@))->0,
        url_scheme(url@) is Some ==> res is Ok,
        res is Ok ==> url_scheme(res->Ok_0@) == url_scheme(url@) && url_host(res->Ok_0@) == url_host(url@),
{
    let mut parsed = url::Url::parse(url)?;
    parsed.query_pairs_mut().extend_pairs(pairs.iter());
    Ok(parsed.into())
}

/// What `url::Url::host_str` gives for the URL parsed from `url`; `None` where it does not
/// parse or has no host.
pub uninterp spec fn url_host(url: Seq<char>) -> Option<Seq<char>>;

/// Parses `url` and calls `url::Url::host_str` on it.
///
/// Assumed: the result is `url_host(url)`; a URL with an HTTP or WebSocket scheme has a host.
#[verifier::external_body]
pub(crate) fn host_of(url: &str) -> (res: Option<String>)
    ensures
        res is Some <==> url_host(url@) is Some,
        url_scheme(url@) is Some && web_scheme(url_scheme(url@)->0) ==> res is Some,
        res is Some ==> res->0@ == url_host(url@)->0,
{
    match url::Url::parse(url) {
        Ok(parsed) => parsed.host_str().map(str::to_owned),
        Err(_) => None,
    }
}

/// Characters of the standard base64 alphabet (padding `=` aside).
pub open spec fn base64_char(c: char) -> bool {
    ('A' <= c <= 'Z') || ('a' <= c <= 'z') || ('0' <= c <= '9') || c == '+' || c == '/'
}

/// Calls `tungstenite::handshake::client::generate_key`.
///
/// Assumed, as its source shows (standard base64 of 16 random bytes): 22 characters of the
/// base64 alphabet and the padding `==`. The key itself is random, so nothing more is said of
/// it.
#[verifier::external_body]
pub(crate) fn generate_websocket_key() -> (key: String)
    ensures
        key@.len() == 24,
        forall|i: int| 0 <= i < 22 ==> base64_char(#[trigger] key@[i]),
        key@[22] == '=' && key@[23] == '=',
{
    tungstenite::handshake::client::generate_key()
}

/// The error type of `tungstenite`, carried as it is.
#[verifier::external_type_specification]
#[verifier::external_body]
pub struct ExWsError(tungstenite::Error);

/// The error type of `http`'s request builder, carried as it is.
#[verifier::external_type_specification]
#[verifier::external_body]
pub struct ExHttpError(http::Error);

/// The error type of `serde_json`, carried as it is.
#[verifier::external_type_specification]
#[verifier::external_body]
pub struct ExJsonError(serde_json::Error);

/// A JSON value, carried as it is.
#[verifier::external_type_specification]
#[verifier::external_body]
pub struct ExJsonValue(serde_json::Value);

/// `Clone::clone` of `serde_json::Value` (derived: a deep copy).
///
/// Assumed: the copy equals the value it was made from.
pub assume_specification[ <serde_json::Value as Clone>::clone ](value: &serde_json::Value) -> (copy: serde_json::Value)
    ensures
        copy == *value,
;

/// The error of a send on a closed `futures` channel, carried as it is.
#[verifier::external_type_specification]
#[verifier::external_body]
pub struct ExSendError(futures::channel::mpsc::SendError);

/// A buffer of bytes, carried as it is.
#[verifier::external_type_specification]
#[verifier::external_body]
pub struct ExBytes(bytes::Bytes);

/// `Clone::clone` of `bytes::Bytes` (a handle to the same bytes).
///
/// Assumed: the copy equals the value it was made from.
pub assume_specification[ <bytes::Bytes as Clone>::clone ](b: &bytes::Bytes) -> (copy: bytes::Bytes)
    ensures
        copy == *b,
;

} // verus!
