//! WebSocket URLs of the API's endpoints.

use vstd::prelude::*;

use crate::client::text_is;
use crate::outside::{join_url, joined_url, scheme_of, set_scheme_of, url_scheme, url_with_scheme, web_scheme};

verus! {

/// The WebSocket scheme that stands for a scheme: `ws` for `http` and `ws`, `wss` for `https`
/// and `wss`; none for any other.
pub open spec fn websocket_scheme(scheme: Seq<char>) -> Option<Seq<char>> {
    if scheme == "http"@ || scheme == "ws"@ {
        Some("ws"@)
    } else if scheme == "https"@ || scheme == "wss"@ {
        Some("wss"@)
    } else {
        None
    }
}

/// The WebSocket URL of an endpoint: `path` joined to `base`, with the scheme switched to its
/// WebSocket counterpart.
pub open spec fn websocket_url(base: Seq<char>, path: Seq<char>) -> Option<Seq<char>> {
    match joined_url(base, path) {
        Some(url) => match url_scheme(url) {
            Some(scheme) => match websocket_scheme(scheme) {
                Some(ws) => url_with_scheme(url, ws),
                None => None,
            },
            None => None,
        },
        None => None,
    }
}

/// `path` joins to `base`, and the URL it gives has an HTTP or WebSocket scheme: exactly
/// when the endpoint's WebSocket URL can be built.
pub open spec fn joins_to_web_url(base: Seq<char>, path: Seq<char>) -> bool {
    match joined_url(base, path) {
        Some(url) => match url_scheme(url) {
            Some(scheme) => web_scheme(scheme),
            None => false,
        },
        None => false,
    }
}

/// `url` has the scheme `ws` or `wss`.
pub open spec fn has_websocket_scheme(url: Seq<char>) -> bool {
    url_scheme(url) == Some("ws"@) || url_scheme(url) == Some("wss"@)
}

/// `url` keeps the security of the URL that `path` joined to `base` gives: its scheme is `ws`
/// exactly where that URL's is `http` or `ws`, and `wss` exactly where it is `https` or `wss`.
pub open spec fn keeps_security(base: Seq<char>, path: Seq<char>, url: Seq<char>) -> bool {
    let joined = url_scheme(joined_url(base, path)->0);
    &&& (url_scheme(url) == Some("ws"@) <==> (joined == Some("http"@) || joined == Some("ws"@)))
    &&& (url_scheme(url) == Some("wss"@) <==> (joined == Some("https"@) || joined == Some("wss"@)))
}

/// An endpoint's WebSocket URL keeps the security of the joined URL: a plain (`http` or `ws`)
/// URL is switched to `ws`, a secure (`https` or `wss`) one to `wss`, and there is none where
/// the path does not join or the joined URL has any other scheme.
pub proof fn websocket_url_keeps_security(base: Seq<char>, path: Seq<char>)
    ensures
        joined_url(base, path) is None ==> websocket_url(base, path) is None,
        ({
            let u = joined_url(base, path)->0;
            joined_url(base, path) is Some && (url_scheme(u) == Some("http"@) || url_scheme(u) == Some("ws"@))
                ==> websocket_url(base, path) == url_with_scheme(u, "ws"@)
        }),
        ({
            let u = joined_url(base, path)->0;
            joined_url(base, path) is Some && (url_scheme(u) == Some("https"@) || url_scheme(u) == Some("wss"@))
                ==> websocket_url(base, path) == url_with_scheme(u, "wss"@)
        }),
        ({
            let u = joined_url(base, path)->0;
            joined_url(base, path) is Some && !(url_scheme(u) is Some && web_scheme(url_scheme(u)->0))
                ==> websocket_url(base, path) is None
        }),
{
    reveal_strlit("http");
    reveal_strlit("https");
    reveal_strlit("ws");
    reveal_strlit("wss");
    assert("https"@ != "http"@ && "https"@ != "ws"@ && "wss"@ != "http"@ && "wss"@ != "ws"@
        && "ws"@ != "wss"@ && "ws"@ != "https"@ && "http"@ != "wss"@ && "http"@ != "https"@) by {
        assert("https"@.len() == 5 && "http"@.len() == 4 && "ws"@.len() == 2 && "wss"@.len() == 3);
    }
}

/// The WebSocket URL of the endpoint at `path` under `base`; `None` where it cannot be built,
/// which is exactly where `path` does not join to `base` or the result has a scheme other than
/// HTTP or WebSocket.
pub fn websocket_url_for(base: &str, path: &str) -> (res: Option<String>)
    ensures
        res is Some <==> websocket_url(base@, path@) is Some,
        res is Some ==> res->0@ == websocket_url(base@, path@)->0,
        res is Some <==> joins_to_web_url(base@, path@),
        res is Some ==> has_websocket_scheme(res->0@),
        res is Some ==> keeps_security(base@, path@, res->0@),
{
    let url = match join_url(base, path) {
        Ok(url) => url,
        Err(_) => return None,
    };
    let scheme = match scheme_of(url.as_str()) {
        Some(scheme) => scheme,
        None => return None,
    };
    let ws = if text_is(&scheme, "http") || text_is(&scheme, "ws") {
        "ws"
    } else if text_is(&scheme, "https") || text_is(&scheme, "wss") {
        "wss"
    } else {
        return None;
    };
    proof {
        reveal_strlit("http");
        reveal_strlit("https");
        reveal_strlit("ws");
        reveal_strlit("wss");
        assert("ws"@ != "wss"@ && "http"@ != "https"@ && "http"@ != "wss"@ && "ws"@ != "https"@) by {
            assert("https"@.len() == 5 && "http"@.len() == 4 && "ws"@.len() == 2 && "wss"@.len() == 3);
        }
    }
    match set_scheme_of(url.as_str(), ws) {
        Ok(url) => Some(url),
        Err(_) => None,
    }
}

} // verus!
