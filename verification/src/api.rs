//! The decisions the REST endpoints make before and after touching storage: input
//! validation, per-number authorization, and the errors they answer with.

use vstd::prelude::*;
use crate::db::models::{ApiToken, Device, IngestSmsRequest, Message};
use crate::text::{owned, push_all, trim_str};

verus! {

/// An error answer: HTTP status, error kind and message.
#[derive(Debug, Clone)]
pub struct ApiError {
    pub status: u16,
    pub error: String,
    pub message: String,
}

impl ApiError {
    pub open spec fn is(&self, status: u16, error: Seq<char>, message: Seq<char>) -> bool {
        self.status == status && self.error@ == error && self.message@ == message
    }
}

fn api_error(status: u16, error: &str, message: &str) -> (r: ApiError)
    ensures
        r.is(status, error@, message@),
{
    ApiError { status, error: owned(error), message: owned(message) }
}

/// A request to add a phone number or change its label.
#[derive(Debug, Clone)]
pub struct UpsertNumberRequest {
    pub phone_number: String,
    pub label: Option<String>,
}

/// The query of a WebSocket upgrade.
#[derive(Debug, Clone)]
pub struct WsQuery {
    pub token: Option<String>,
}

/// Device registration needs a name that is not blank.
pub fn check_device_name(name: &str) -> (r: Result<(), ApiError>)
    ensures
        crate::text::trim(name@).len() == 0 <==> r is Err,
        r matches Err(e) ==> e.is(400, "bad_request"@, "Device name cannot be empty"@),
{
    if trim_str(name).as_str().is_empty() {
        return Err(api_error(400, "bad_request", "Device name cannot be empty"));
    }
    Ok(())
}

/// Token creation needs a name that is not blank.
pub fn check_token_name(name: &str) -> (r: Result<(), ApiError>)
    ensures
        crate::text::trim(name@).len() == 0 <==> r is Err,
        r matches Err(e) ==> e.is(400, "bad_request"@, "Token name cannot be empty"@),
{
    if trim_str(name).as_str().is_empty() {
        return Err(api_error(400, "bad_request", "Token name cannot be empty"));
    }
    Ok(())
}

/// The phone number to add or update: the trimmed request number, which must not be empty.
pub fn upsert_number_input(req: &UpsertNumberRequest) -> (r: Result<String, ApiError>)
    ensures
        crate::text::trim(req.phone_number@).len() == 0 <==> r is Err,
        r matches Ok(n) ==> n@ == crate::text::trim(req.phone_number@),
        r matches Err(e) ==> e.is(400, "bad_request"@, "phone_number cannot be empty"@),
{
    let number = trim_str(req.phone_number.as_str());
    if number.as_str().is_empty() {
        return Err(api_error(400, "bad_request", "phone_number cannot be empty"));
    }
    Ok(number)
}

/// A forwarded SMS made ready to store, with the code found in its body.
#[derive(Debug, Clone)]
pub struct PreparedSms {
    pub request: IngestSmsRequest,
    pub extracted_code: Option<String>,
}

/// Prepares a forwarded SMS: a device that sent it without naming a device id gets its own
/// id recorded; the recipient number and sender are trimmed; an empty recipient number or
/// body is refused; and the body is searched for a one-time code.
pub fn prepare_forward(payload: IngestSmsRequest, device: Option<&Device>) -> (r: Result<PreparedSms, ApiError>)
    ensures
        (crate::text::trim(payload.recipient_number@).len() == 0 || payload.body@.len() == 0) <==> r is Err,
        r matches Err(e) ==> e.is(400, "bad_request"@, "recipient_number and body cannot be empty"@),
        r matches Ok(p) ==> {
            &&& p.request.recipient_number@ == crate::text::trim(payload.recipient_number@)
            &&& p.request.sender@ == crate::text::trim(payload.sender@)
            &&& p.request.body == payload.body
            &&& p.request.received_at == payload.received_at
            &&& p.request.sim_slot == payload.sim_slot
            &&& p.request.metadata == payload.metadata
            &&& p.request.device_id == match payload.device_id {
                Some(d) => Some(d),
                None => match device {
                    Some(dev) => Some(dev.id),
                    None => None,
                },
            }
            &&& crate::db::query::opt_view(p.extracted_code) == crate::otp::spec_extract_otp(payload.body@)
        },
{
    let mut payload = payload;
    if payload.device_id.is_none() {
        if let Some(dev) = device {
            payload.device_id = Some(dev.id.clone());
        }
    }
    payload.recipient_number = trim_str(payload.recipient_number.as_str());
    payload.sender = trim_str(payload.sender.as_str());
    if payload.recipient_number.as_str().is_empty() || payload.body.as_str().is_empty() {
        return Err(api_error(400, "bad_request", "recipient_number and body cannot be empty"));
    }
    let extracted_code = crate::otp::extract_otp(payload.body.as_str());
    Ok(PreparedSms { request: payload, extracted_code })
}

/// The message refusing access to `number`.
pub open spec fn not_authorized_for(number: Seq<char>) -> Seq<char> {
    "Token is not authorized to access number "@ + number
}

/// Refuses, with 403, a request naming a number the token may not access.
pub fn check_number_access(token: &ApiToken, number: Option<&str>) -> (r: Result<(), ApiError>)
    ensures
        r is Err <==> crate::db::query::number_refused(*token, crate::db::query::opt_str_view(number)),
        r matches Err(e) ==> e.is(403, "forbidden"@, not_authorized_for(number->0@)),
{
    if let Some(num) = number {
        if !token.can_access_number(num) {
            let mut msg = owned("Token is not authorized to access number ");
            push_all(&mut msg, num);
            return Err(ApiError { status: 403, error: owned("forbidden"), message: msg });
        }
    }
    Ok(())
}

/// The age limit of the latest-code request: the one given, else 10 minutes.
pub fn latest_otp_max_age(requested: Option<i64>) -> (r: i64)
    ensures
        r == match requested {
            Some(m) => m,
            None => 10,
        },
{
    match requested {
        Some(m) => m,
        None => 10,
    }
}

/// Refuses, with 403, a delete by a token that holds neither delete nor admin rights.
pub fn check_delete_permission(token: &ApiToken) -> (r: Result<(), ApiError>)
    ensures
        r is Err <==> (!token.can_delete && !token.is_admin),
        r matches Err(e) ==> e.is(403, "forbidden"@, "Token lacks delete permission"@),
{
    if !token.can_delete && !token.is_admin {
        return Err(api_error(403, "forbidden", "Token lacks delete permission"));
    }
    Ok(())
}

/// The 404 answer for a message that is absent or hidden from the token.
pub fn message_not_found() -> (r: ApiError)
    ensures
        r.is(404, "not_found"@, "Message not found or unauthorized"@),
{
    api_error(404, "not_found", "Message not found or unauthorized")
}

/// The 404 answer for revoking a token that does not exist.
pub fn token_not_found() -> (r: ApiError)
    ensures
        r.is(404, "not_found"@, "Token not found"@),
{
    api_error(404, "not_found", "Token not found")
}

/// The 500 answer for a storage failure with the given description.
pub fn db_error(message: &str) -> (r: ApiError)
    ensures
        r.is(500, "db_error"@, message@),
{
    api_error(500, "db_error", message)
}

/// The token a WebSocket upgrade authenticates with: the `token` query parameter, else the
/// token the headers carry (a `Bearer` Authorization header, `X-API-Token` or
/// `X-Device-Token`).
pub fn ws_token(query: WsQuery, headers: &crate::auth::RequestHeaders) -> (r: Option<String>)
    ensures
        crate::db::query::opt_view(r) == match query.token {
            Some(t) => Some(t@),
            None => crate::auth::token_in_headers(*headers),
        },
{
    match query.token {
        Some(t) => Some(t),
        None => crate::auth::extract_token_from_headers(headers),
    }
}

/// The 401 answer for a WebSocket upgrade that carries no token.
pub fn ws_missing_token() -> (r: ApiError)
    ensures
        r.is(401, "unauthorized"@, "Missing ?token= query parameter"@),
{
    api_error(401, "unauthorized", "Missing ?token= query parameter")
}

/// The 401 answer for an unknown token.
pub fn invalid_token() -> (r: ApiError)
    ensures
        r.is(401, "unauthorized"@, "Invalid token"@),
{
    api_error(401, "unauthorized", "Invalid token")
}

/// Whether a new message is pushed to a WebSocket client authenticated with `token`: only
/// when the token may access the message's recipient number.
pub fn should_forward(token: &ApiToken, msg: &Message) -> (r: bool)
    ensures
        r == token.may_access(msg.recipient_number@),
{
    token.can_access_number(msg.recipient_number.as_str())
}

} // verus!
