//! Framing of the MCP STDIO transport: one JSON-RPC request per line.

use vstd::prelude::*;
use crate::text::{owned, push_all, trim_str};

verus! {

/// The request text of an input line: the trimmed line, or `None` for a blank line,
/// which is skipped.
pub fn request_line(line: &str) -> (r: Option<String>)
    ensures
        crate::text::trim(line@).len() == 0 ==> r is None,
        crate::text::trim(line@).len() != 0 ==> (r matches Some(t) && t@ == crate::text::trim(line@)),
{
    let t = trim_str(line);
    if t.as_str().is_empty() {
        None
    } else {
        Some(t)
    }
}

/// The message of the error answer to a line that is not a JSON-RPC request.
pub fn parse_error_message(detail: &str) -> (r: String)
    ensures
        r@ == "Parse error: "@ + detail@,
{
    let mut r = owned("Parse error: ");
    push_all(&mut r, detail);
    r
}

} // verus!
