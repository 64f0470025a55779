//! Authentication: finding the secret token in a request, and the rules that turn a
//! token lookup into an authenticated identity or a refusal.

use vstd::prelude::*;
use crate::db::models::{ApiToken, Device};
use crate::text::{chars_of, string_from_chars, trim_str};

verus! {

/// The token-bearing headers of a request. Each holds the header's value when the header
/// is present and its value is visible ASCII text (`HeaderValue::to_str` succeeds).
#[derive(Debug, Clone)]
pub struct RequestHeaders {
    pub authorization: Option<String>,
    pub x_api_token: Option<String>,
    pub x_device_token: Option<String>,
}

pub open spec fn bearer() -> Seq<char> {
    seq!['B', 'e', 'a', 'r', 'e', 'r', ' ']
}

/// The token the headers carry: a `Bearer` Authorization header, else `X-API-Token`, else
/// `X-Device-Token`; trimmed.
pub open spec fn token_in_headers(h: RequestHeaders) -> Option<Seq<char>> {
    if h.authorization is Some && crate::text::starts_with_chars(h.authorization->0@, bearer()) {
        let a = h.authorization->0@;
        Some(crate::text::trim(a.subrange(7, a.len() as int)))
    } else if h.x_api_token is Some {
        Some(crate::text::trim(h.x_api_token->0@))
    } else if h.x_device_token is Some {
        Some(crate::text::trim(h.x_device_token->0@))
    } else {
        None
    }
}

/// The token in a `Bearer` Authorization header, if that is what it holds.
fn bearer_token(a: &str) -> (r: Option<String>)
    ensures
        crate::text::starts_with_chars(a@, bearer()) ==> (r matches Some(t) && t@ == crate::text::trim(a@.subrange(7, a@.len() as int))),
        !crate::text::starts_with_chars(a@, bearer()) ==> r is None,
{
    let cs = chars_of(a);
    let b = chars_of("Bearer ");
    assert(b@ == bearer()) by { reveal_strlit("Bearer "); }
    assert(bearer().len() == 7);
    if cs.len() < 7 {
        return None;
    }
    let mut i: usize = 0;
    while i < 7
        invariant
            i <= 7 <= cs@.len(),
            cs@ == a@,
            b@ == bearer(),
            forall|k: int| 0 <= k < i ==> cs@[k] == b@[k],
        decreases 7 - i,
    {
        if cs[i] != b[i] {
            assert(cs@.subrange(0, 7)[i as int] != bearer()[i as int]);
            return None;
        }
        i = i + 1;
    }
    assert(cs@.subrange(0, 7) =~= bearer());
    let mut rest: Vec<char> = Vec::new();
    let mut k: usize = 7;
    while k < cs.len()
        invariant
            7 <= k <= cs@.len(),
            cs@ == a@,
            rest@ == cs@.subrange(7, k as int),
        decreases cs@.len() - k,
    {
        rest.push(cs[k]);
        k = k + 1;
        assert(cs@.subrange(7, k as int) =~= cs@.subrange(7, k - 1).push(cs@[k - 1]));
    }
    let s = string_from_chars(rest.as_slice());
    Some(trim_str(s.as_str()))
}

/// The secret token carried by the request headers.
pub fn extract_token_from_headers(headers: &RequestHeaders) -> (r: Option<String>)
    ensures
        crate::db::query::opt_view(r) == token_in_headers(*headers),
{
    if let Some(a) = &headers.authorization {
        if let Some(t) = bearer_token(a.as_str()) {
            return Some(t);
        }
    }
    if let Some(v) = &headers.x_api_token {
        return Some(trim_str(v.as_str()));
    }
    if let Some(v) = &headers.x_device_token {
        return Some(trim_str(v.as_str()));
    }
    None
}

/// The name/value pairs, in order, that `serde_urlencoded` reads from a query string;
/// `None` when it reports an error.
pub uninterp spec fn form_pairs(query: Seq<char>) -> Option<Seq<(Seq<char>, Seq<char>)>>;

pub open spec fn pairs_view(v: Seq<(String, String)>) -> Seq<(Seq<char>, Seq<char>)> {
    v.map_values(|p: (String, String)| (p.0@, p.1@))
}

/// Calls `serde_urlencoded::from_str::<Vec<(String, String)>>`; the contract claims that the
/// result is `form_pairs` of the query.
#[verifier::external_body]
fn parse_query_pairs(query: &str) -> (r: Option<Vec<(String, String)>>)
    ensures
        match r {
            Some(v) => form_pairs(query@) == Some(pairs_view(v@)),
            None => form_pairs(query@) is None,
        },
{
    serde_urlencoded::from_str::<Vec<(String, String)>>(query).ok()
}

/// The value of the last pair named `key`: what a map filled from the pairs in order holds.
pub open spec fn last_value_for(pairs: Seq<(Seq<char>, Seq<char>)>, key: Seq<char>) -> Option<Seq<char>>
    decreases pairs.len(),
{
    if pairs.len() == 0 {
        None
    } else if pairs.last().0 == key {
        Some(pairs.last().1)
    } else {
        last_value_for(pairs.drop_last(), key)
    }
}

/// The `token` parameter of a query string, as a `HashMap` read from it holds it (the last
/// `token=` wins).
pub open spec fn token_in_query(query: Seq<char>) -> Option<Seq<char>> {
    match form_pairs(query) {
        Some(pairs) => last_value_for(pairs, "token"@),
        None => None,
    }
}

/// The value of the last `token` pair.
pub fn token_from_pairs(pairs: &Vec<(String, String)>) -> (r: Option<String>)
    ensures
        crate::db::query::opt_view(r) == last_value_for(pairs_view(pairs@), "token"@),
{
    let mut i: usize = pairs.len();
    assert(pairs@.take(i as int) =~= pairs@);
    while i > 0
        invariant
            i <= pairs@.len(),
            last_value_for(pairs_view(pairs@), "token"@) == last_value_for(pairs_view(pairs@.take(i as int)), "token"@),
        decreases i,
    {
        assert(pairs_view(pairs@.take(i as int)).drop_last() =~= pairs_view(pairs@.take(i - 1)));
        assert(pairs_view(pairs@.take(i as int)).last() == (pairs@[i - 1].0@, pairs@[i - 1].1@));
        if crate::text::str_eq(pairs[i - 1].0.as_str(), "token") {
            return Some(pairs[i - 1].1.clone());
        }
        i = i - 1;
    }
    None
}

/// The secret token in the request: from the headers, else the `?token=` query parameter.
pub fn extract_token_str(headers: &RequestHeaders, query: Option<&str>) -> (r: Option<String>)
    ensures
        crate::db::query::opt_view(r) == match token_in_headers(*headers) {
            Some(t) => Some(t),
            None => match query {
                Some(q) => token_in_query(q@),
                None => None,
            },
        },
{
    if let Some(t) = extract_token_from_headers(headers) {
        return Some(t);
    }
    if let Some(q) = query {
        if let Some(pairs) = parse_query_pairs(q) {
            return token_from_pairs(&pairs);
        }
    }
    None
}

} // verus!

verus! {

/// The JSON body of an authentication refusal.
#[derive(Debug, Clone)]
pub struct AuthErrorResponse {
    pub error: String,
    pub message: String,
}

/// Why a request was not authenticated.
#[derive(Debug, Clone)]
pub enum AuthError {
    MissingToken,
    InvalidToken,
    Forbidden(String),
    DatabaseError(String),
}

impl AuthError {
    /// The HTTP status of the refusal.
    pub open spec fn spec_status(&self) -> u16 {
        match self {
            AuthError::MissingToken => 401,
            AuthError::InvalidToken => 401,
            AuthError::Forbidden(_) => 403,
            AuthError::DatabaseError(_) => 500,
        }
    }

    /// The error kind and message of the refusal.
    pub open spec fn spec_body(&self) -> (Seq<char>, Seq<char>) {
        match self {
            AuthError::MissingToken => ("unauthorized"@, "Missing Authorization header (Bearer token) or ?token= query parameter"@),
            AuthError::InvalidToken => ("unauthorized"@, "Invalid or expired token"@),
            AuthError::Forbidden(reason) => ("forbidden"@, reason@),
            AuthError::DatabaseError(reason) => ("internal_error"@, reason@),
        }
    }

    /// The HTTP status code of the refusal.
    pub fn status_code(&self) -> (r: u16)
        ensures
            r == self.spec_status(),
    {
        match self {
            AuthError::MissingToken => 401,
            AuthError::InvalidToken => 401,
            AuthError::Forbidden(_) => 403,
            AuthError::DatabaseError(_) => 500,
        }
    }

    /// The JSON body of the refusal.
    pub fn response_body(&self) -> (r: AuthErrorResponse)
        ensures
            (r.error@, r.message@) == self.spec_body(),
    {
        match self {
            AuthError::MissingToken => AuthErrorResponse {
                error: crate::text::owned("unauthorized"),
                message: crate::text::owned("Missing Authorization header (Bearer token) or ?token= query parameter"),
            },
            AuthError::InvalidToken => AuthErrorResponse {
                error: crate::text::owned("unauthorized"),
                message: crate::text::owned("Invalid or expired token"),
            },
            AuthError::Forbidden(reason) => AuthErrorResponse {
                error: crate::text::owned("forbidden"),
                message: reason.clone(),
            },
            AuthError::DatabaseError(reason) => AuthErrorResponse {
                error: crate::text::owned("internal_error"),
                message: reason.clone(),
            },
        }
    }
}

/// A request authenticated by an API token that may read (or is an admin token).
#[derive(Debug, Clone)]
pub struct AuthenticatedToken(pub ApiToken);

/// A request authenticated by an admin token.
#[derive(Debug, Clone)]
pub struct AdminToken(pub ApiToken);

/// A forwarding request authenticated by a device token, or else by an admin API token.
#[derive(Debug, Clone)]
pub struct DeviceOrAdmin {
    pub device: Option<Device>,
    pub admin: Option<ApiToken>,
}

impl AuthenticatedToken {
    /// Authenticates a request whose token was looked up: an unknown token is invalid, a
    /// failed lookup a database error, and a token that may not read is forbidden unless
    /// it is an admin token.
    pub fn from_lookup(lookup: Result<Option<ApiToken>, String>) -> (r: Result<AuthenticatedToken, AuthError>)
        ensures
            match lookup {
                Err(e) => r matches Err(AuthError::DatabaseError(m)) && m == e,
                Ok(None) => r matches Err(AuthError::InvalidToken),
                Ok(Some(t)) => if !t.can_read && !t.is_admin {
                    r matches Err(AuthError::Forbidden(m)) && m@ == "Token lacks read permission"@
                } else {
                    r matches Ok(a) && a.0 == t
                },
            },
            r matches Ok(a) ==> (a.0.can_read || a.0.is_admin),
    {
        match lookup {
            Err(e) => Err(AuthError::DatabaseError(e)),
            Ok(None) => Err(AuthError::InvalidToken),
            Ok(Some(t)) => {
                if !t.can_read && !t.is_admin {
                    return Err(AuthError::Forbidden(crate::text::owned("Token lacks read permission")));
                }
                Ok(AuthenticatedToken(t))
            },
        }
    }
}

impl AdminToken {
    /// Admin operations: an authenticated token must also be an admin token.
    pub fn from_authenticated(auth: Result<AuthenticatedToken, AuthError>) -> (r: Result<AdminToken, AuthError>)
        ensures
            match auth {
                Err(e) => r matches Err(f) && f == e,
                Ok(a) => if a.0.is_admin {
                    r matches Ok(b) && b.0 == a.0
                } else {
                    r matches Err(f) && f matches AuthError::Forbidden(m) && m@ == "Administrator privileges required"@
                },
            },
    {
        match auth {
            Err(e) => Err(e),
            Ok(AuthenticatedToken(token)) => {
                if !token.is_admin {
                    return Err(AuthError::Forbidden(crate::text::owned("Administrator privileges required")));
                }
                Ok(AdminToken(token))
            },
        }
    }
}

/// Whether a looked-up API token is an admin token.
pub open spec fn holds_admin(api_token: Option<ApiToken>) -> bool {
    match api_token {
        Some(t) => t.is_admin,
        None => false,
    }
}

impl DeviceOrAdmin {
    /// Forwarding: a known device token is accepted; otherwise (the API token lookup is then
    /// made) only an admin API token is; anything else is an invalid token.
    pub fn decide(device: Option<Device>, api_token: Option<ApiToken>) -> (r: Result<DeviceOrAdmin, AuthError>)
        ensures
            device is Some ==> (r matches Ok(d) && d.device == device && d.admin is None),
            device is None && holds_admin(api_token) ==> (r matches Ok(d)
                && d.device is None && d.admin == api_token),
            device is None && !holds_admin(api_token) ==> r matches Err(AuthError::InvalidToken),
    {
        if device.is_some() {
            return Ok(DeviceOrAdmin { device, admin: None });
        }
        match api_token {
            Some(t) => {
                if t.is_admin {
                    Ok(DeviceOrAdmin { device: None, admin: Some(t) })
                } else {
                    Err(AuthError::InvalidToken)
                }
            },
            None => Err(AuthError::InvalidToken),
        }
    }
}

} // verus!
