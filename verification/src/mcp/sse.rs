//! Framing of the MCP Server-Sent Events transport.

use vstd::prelude::*;
use crate::auth::RequestHeaders;
use crate::text::{chars_of, owned, push_all};

verus! {

/// The query of `GET /mcp/sse`.
#[derive(Debug, Clone)]
pub struct SseParams {
    pub token: Option<String>,
}

/// The query of `POST /mcp/messages`.
#[derive(Debug, Clone)]
pub struct MessageParams {
    pub session_id: Option<String>,
    pub token: Option<String>,
}

/// The token an SSE request authenticates with: the `token` query parameter, else the
/// headers' token.
pub fn sse_token(query_token: Option<String>, headers: &RequestHeaders) -> (r: Option<String>)
    ensures
        crate::db::query::opt_view(r) == match query_token {
            Some(t) => Some(t@),
            None => crate::auth::token_in_headers(*headers),
        },
{
    match query_token {
        Some(t) => Some(t),
        None => crate::auth::extract_token_from_headers(headers),
    }
}

/// The endpoint a new SSE session posts its requests to.
pub fn endpoint_uri(session_id: &str, token: &str) -> (r: String)
    ensures
        r@ == "/mcp/messages?session_id="@ + session_id@ + "&token="@ + token@,
{
    let mut r = owned("/mcp/messages?session_id=");
    push_all(&mut r, session_id);
    push_all(&mut r, "&token=");
    push_all(&mut r, token);
    r
}

/// The event name an SSE payload is sent under: `endpoint` for the session's endpoint,
/// `message` for everything else.
pub fn event_name(data: &str) -> (r: &'static str)
    ensures
        r@ == if crate::text::starts_with_chars(data@, "/mcp/messages"@) { "endpoint"@ } else { "message"@ },
{
    let d = chars_of(data);
    let p = chars_of("/mcp/messages");
    if p.len() <= d.len() {
        let mut i: usize = 0;
        while i < p.len()
            invariant
                p@.len() <= d@.len(),
                i <= p@.len(),
                d@ == data@,
                p@ == "/mcp/messages"@,
                forall|k: int| 0 <= k < i ==> d@[k] == p@[k],
            decreases p@.len() - i,
        {
            if d[i] != p[i] {
                assert(d@.subrange(0, p@.len() as int)[i as int] != p@[i as int]);
                return "message";
            }
            i = i + 1;
        }
        assert(d@.subrange(0, p@.len() as int) =~= p@);
        "endpoint"
    } else {
        "message"
    }
}

} // verus!
