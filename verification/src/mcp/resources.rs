//! The MCP resources: one listing the numbers a token may access, and one message feed
//! per such number.

use vstd::prelude::*;
use crate::db::models::{ApiToken, MessageQueryFilter, PhoneNumber};
use crate::mcp::protocol::ResourceDefinition;
use crate::text::{chars_of, owned, push_all, str_eq};

verus! {

/// Whether `d` describes the feed of `p`.
pub open spec fn is_feed_of(d: ResourceDefinition, p: PhoneNumber) -> bool {
    &&& d.uri@ == "sms://messages/"@ + p.phone_number@
    &&& d.name@ == "SMS Feed: "@ + match p.label {
        Some(l) => l@,
        None => p.phone_number@,
    }
    &&& d.description matches Some(t) && t@ == "Recent SMS received on "@ + p.phone_number@
    &&& d.mime_type matches Some(m) && m@ == "application/json"@
}

/// The resources offered for the given (already authorized) numbers: the number list, then
/// one feed per number.
pub fn resource_definitions(numbers: &Vec<PhoneNumber>) -> (r: Vec<ResourceDefinition>)
    ensures
        r@.len() == numbers@.len() + 1,
        r@[0].uri@ == "sms://numbers"@,
        r@[0].name@ == "Authorized Phone Numbers"@,
        r@[0].description matches Some(t) && t@ == "List of phone numbers authorized for this assistant"@,
        r@[0].mime_type matches Some(m) && m@ == "application/json"@,
        forall|i: int| 0 <= i < numbers@.len() ==> #[trigger] is_feed_of(r@[i + 1], numbers@[i]),
{
    let mut r: Vec<ResourceDefinition> = Vec::new();
    r.push(ResourceDefinition {
        uri: owned("sms://numbers"),
        name: owned("Authorized Phone Numbers"),
        description: Some(owned("List of phone numbers authorized for this assistant")),
        mime_type: Some(owned("application/json")),
    });
    let mut i: usize = 0;
    while i < numbers.len()
        invariant
            i <= numbers@.len(),
            r@.len() == i + 1,
            r@[0].uri@ == "sms://numbers"@,
            r@[0].name@ == "Authorized Phone Numbers"@,
            r@[0].description matches Some(t) && t@ == "List of phone numbers authorized for this assistant"@,
            r@[0].mime_type matches Some(m) && m@ == "application/json"@,
            forall|k: int| 0 <= k < i ==> #[trigger] is_feed_of(r@[k + 1], numbers@[k]),
        decreases numbers@.len() - i,
    {
        let num = &numbers[i];
        let mut uri = owned("sms://messages/");
        push_all(&mut uri, num.phone_number.as_str());
        let mut name = owned("SMS Feed: ");
        match &num.label {
            Some(l) => push_all(&mut name, l.as_str()),
            None => push_all(&mut name, num.phone_number.as_str()),
        }
        let mut description = owned("Recent SMS received on ");
        push_all(&mut description, num.phone_number.as_str());
        r.push(ResourceDefinition {
            uri,
            name,
            description: Some(description),
            mime_type: Some(owned("application/json")),
        });
        i = i + 1;
    }
    r
}

/// What reading a resource does.
#[derive(Debug, Clone)]
pub enum ResourcePlan {
    /// Answer with the numbers the token may access.
    Numbers,
    /// Answer with the messages this filter lists.
    Messages(MessageQueryFilter),
    /// Answer with this error.
    Fail(String),
}

/// The number a feed URI names, if it is a feed URI.
pub open spec fn feed_number(uri: Seq<char>) -> Option<Seq<char>> {
    if crate::text::starts_with_chars(uri, "sms://messages/"@) {
        Some(uri.subrange("sms://messages/"@.len() as int, uri.len() as int))
    } else {
        None
    }
}

fn strip_feed_prefix(uri: &str) -> (r: Option<String>)
    ensures
        crate::db::query::opt_view(r) == feed_number(uri@),
{
    let u = chars_of(uri);
    let p = chars_of("sms://messages/");
    if p.len() > u.len() {
        return None;
    }
    let mut i: usize = 0;
    while i < p.len()
        invariant
            p@.len() <= u@.len(),
            i <= p@.len(),
            u@ == uri@,
            p@ == "sms://messages/"@,
            forall|k: int| 0 <= k < i ==> u@[k] == p@[k],
        decreases p@.len() - i,
    {
        if u[i] != p[i] {
            assert(u@.subrange(0, p@.len() as int)[i as int] != p@[i as int]);
            return None;
        }
        i = i + 1;
    }
    assert(u@.subrange(0, p@.len() as int) =~= p@);
    let mut rest: Vec<char> = Vec::new();
    let mut k: usize = p.len();
    while k < u.len()
        invariant
            p@.len() <= k <= u@.len(),
            rest@ == u@.subrange(p@.len() as int, k as int),
        decreases u@.len() - k,
    {
        rest.push(u[k]);
        k = k + 1;
        assert(u@.subrange(p@.len() as int, k as int) =~= u@.subrange(p@.len() as int, k - 1).push(u@[k - 1]));
    }
    Some(crate::text::string_from_chars(rest.as_slice()))
}

/// Plans reading a resource: the number list; the feed of a number the token may access,
/// limited to 20 messages; or an error.
pub fn plan_resource_read(token: &ApiToken, uri: &str) -> (r: ResourcePlan)
    ensures
        uri@ == "sms://numbers"@ ==> r matches ResourcePlan::Numbers,
        uri@ != "sms://numbers"@ ==> match feed_number(uri@) {
            Some(n) => if token.may_access(n) {
                r matches ResourcePlan::Messages(f) && f.number matches Some(m) && m@ == n
                    && f.limit == Some(20i64) && f.sender is None && f.search is None
                    && f.offset is None && f.since is None
            } else {
                r matches ResourcePlan::Fail(m) && m@ == "Permission Denied: Unauthorized for number "@ + n
            },
            None => r matches ResourcePlan::Fail(m) && m@ == "Resource not found: "@ + uri@,
        },
{
    if str_eq(uri, "sms://numbers") {
        return ResourcePlan::Numbers;
    }
    if let Some(number) = strip_feed_prefix(uri) {
        if !token.can_access_number(number.as_str()) {
            let mut m = owned("Permission Denied: Unauthorized for number ");
            push_all(&mut m, number.as_str());
            return ResourcePlan::Fail(m);
        }
        return ResourcePlan::Messages(MessageQueryFilter {
            number: Some(number),
            sender: None,
            search: None,
            limit: Some(20),
            offset: None,
            since: None,
        });
    }
    let mut m = owned("Resource not found: ");
    push_all(&mut m, uri);
    ResourcePlan::Fail(m)
}

} // verus!
