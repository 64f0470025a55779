//! Building the records that are inserted: devices, access tokens and messages.
//! Identifiers come from `uuid`, timestamps from the clock and secrets from `crypto`.

use vstd::prelude::*;
use crate::db::clock::now_rfc3339;
use crate::db::crypto::{generate_token, hash_token};
use crate::db::models::{ApiToken, CreateTokenRequest, Device, IngestSmsRequest, Message};
use crate::text::{chars_of, owned, push_all, string_from_chars};

verus! {

/// Whether 16 bytes are a version-4 (random) UUID of the RFC 4122 variant: the high nibble
/// of byte 6 is 4 and the two high bits of byte 8 are `10`.
pub open spec fn is_uuid_v4_bytes(b: Seq<u8>) -> bool {
    b.len() == 16 && b[6] / 16 == 4 && b[8] / 64 == 2
}

/// The hyphenated form of a UUID's 32 hex digits: groups of 8, 4, 4, 4 and 12 digits.
pub open spec fn hyphenated(h: Seq<char>) -> Seq<char> {
    h.subrange(0, 8) + seq!['-'] + h.subrange(8, 12) + seq!['-'] + h.subrange(12, 16) + seq!['-']
        + h.subrange(16, 20) + seq!['-'] + h.subrange(20, 32)
}

/// Whether `s` is a version-4 UUID in lowercase hyphenated form.
pub open spec fn is_uuid_v4(s: Seq<char>) -> bool {
    exists|b: Seq<u8>| is_uuid_v4_bytes(b) && s == hyphenated(#[trigger] crate::db::crypto::hex_of(b))
}

/// Whether `s` is a version-4 UUID in lowercase simple form (32 hex digits, no hyphens).
pub open spec fn is_simple_uuid_v4(s: Seq<char>) -> bool {
    exists|b: Seq<u8>| is_uuid_v4_bytes(b) && s == #[trigger] crate::db::crypto::hex_of(b)
}

/// Calls `uuid::Uuid::new_v4().to_string()`. The contract claims what the `uuid` source
/// shows of every outcome: `new_v4` sets the version and variant bits of random bytes, and
/// `Display` writes the lowercase hyphenated form, 36 characters. Which bytes come is random.
#[verifier::external_body]
pub(crate) fn new_uuid() -> (r: String)
    ensures
        is_uuid_v4(r@),
        r@.len() == 36,
{
    uuid::Uuid::new_v4().to_string()
}

/// Calls `uuid::Uuid::new_v4().simple().to_string()`. The contract claims, as for `new_uuid`,
/// the version and variant bits and the lowercase simple form of 32 hex digits.
#[verifier::external_body]
fn new_uuid_simple() -> (r: String)
    ensures
        is_simple_uuid_v4(r@),
        r@.len() == 32,
{
    uuid::Uuid::new_v4().simple().to_string()
}

/// A device record for `raw_token` with the identifier `dev_` + `id_suffix`, created and
/// last seen at `now`; the record keeps only the token's hash.
pub fn new_device_record_at(name: &str, platform: &str, raw_token: String, id_suffix: &str, now: String) -> (r: (Device, String))
    ensures
        r.1 == raw_token,
        r.0.token_hash@ == crate::db::crypto::token_hash_of(raw_token@),
        r.0.name@ == name@,
        r.0.platform@ == platform@,
        r.0.id@ == "dev_"@ + id_suffix@,
        r.0.created_at == now,
        r.0.last_seen_at == now,
{
    let token_hash = hash_token(raw_token.as_str());
    let mut id = owned("dev_");
    push_all(&mut id, id_suffix);
    let device = Device {
        id,
        name: owned(name),
        platform: owned(platform),
        token_hash,
        created_at: now.clone(),
        last_seen_at: now,
    };
    (device, raw_token)
}

/// A new device record and its secret token. The token is `custom_token` when given, else
/// a fresh `sms_dev_…` token; the identifier is `dev_` and a fresh UUID in simple form; the
/// time is the current time.
pub fn new_device_record(name: &str, platform: &str, custom_token: Option<&str>) -> (r: (Device, String))
    ensures
        match custom_token {
            Some(t) => r.1@ == t@,
            None => crate::db::crypto::is_generated_token(r.1@, "sms_dev"@),
        },
        r.0.token_hash@ == crate::db::crypto::token_hash_of(r.1@),
        r.0.name@ == name@,
        r.0.platform@ == platform@,
        r.0.id@.len() == 36,
        r.0.id@.take(4) == "dev_"@,
        is_simple_uuid_v4(r.0.id@.skip(4)),
        r.0.created_at@ == r.0.last_seen_at@,
        crate::db::clock::is_rfc3339_instant(r.0.created_at@),
{
    let raw_token = match custom_token {
        Some(t) => owned(t),
        None => generate_token("sms_dev"),
    };
    let suffix = new_uuid_simple();
    let now = now_rfc3339();
    let r = new_device_record_at(name, platform, raw_token, suffix.as_str(), now);
    proof {
        reveal_strlit("dev_");
        assert(r.0.id@.take(4) =~= "dev_"@);
        assert(r.0.id@.skip(4) =~= suffix@);
    }
    r
}

/// Whether `prefix` is the display prefix of the token `raw`: its longest prefix of at most
/// 11 bytes (cut on a character boundary; all of it when shorter), then an ellipsis.
pub open spec fn is_token_prefix(raw: Seq<char>, prefix: Seq<char>) -> bool {
    exists|k: int| crate::text::is_byte_cut(raw, 11, k) && prefix == #[trigger] raw.take(k) + "..."@
}

/// The display prefix of a token.
pub(crate) fn token_prefix(raw: &str) -> (r: String)
    ensures
        is_token_prefix(raw@, r@),
{
    let chars = chars_of(raw);
    let cut = crate::text::byte_cut(chars.as_slice(), 11);
    let mut r = string_from_chars(cut.as_slice());
    let ghost head = r@;
    push_all(&mut r, "...");
    proof {
        let k = choose|k: int| crate::text::is_byte_cut(raw@, 11, k) && #[trigger] raw@.take(k) == head;
        assert(r@ == raw@.take(k) + "..."@);
    }
    r
}

/// An access token record for `req` with the secret `raw_token`, the identifier `id` and
/// the creation time `now`; it keeps the secret's hash and display prefix, never used.
pub fn new_api_token_record_at(req: CreateTokenRequest, raw_token: String, id: String, now: String) -> (r: (ApiToken, String))
    ensures
        r.1 == raw_token,
        r.0.token_hash@ == crate::db::crypto::token_hash_of(raw_token@),
        is_token_prefix(raw_token@, r.0.token_prefix@),
        r.0.id == id,
        r.0.name == req.name,
        r.0.allowed_numbers == req.allowed_numbers,
        r.0.can_read == req.can_read,
        r.0.can_delete == req.can_delete,
        r.0.is_admin == req.is_admin,
        r.0.created_at == now,
        r.0.last_used_at is None,
{
    let token_hash = hash_token(raw_token.as_str());
    let prefix = token_prefix(raw_token.as_str());
    let token = ApiToken {
        id,
        token_hash,
        token_prefix: prefix,
        name: req.name,
        allowed_numbers: req.allowed_numbers,
        can_read: req.can_read,
        can_delete: req.can_delete,
        is_admin: req.is_admin,
        created_at: now,
        last_used_at: None,
    };
    (token, raw_token)
}

/// A new access token record for `req` and its secret: a fresh `sms_adm_…` token for
/// admin requests, `sms_tok_…` otherwise, a fresh identifier and the current time.
pub fn new_api_token_record(req: CreateTokenRequest) -> (r: (ApiToken, String))
    ensures
        crate::db::crypto::is_generated_token(r.1@, if req.is_admin { "sms_adm"@ } else { "sms_tok"@ }),
        r.0.token_hash@ == crate::db::crypto::token_hash_of(r.1@),
        is_token_prefix(r.1@, r.0.token_prefix@),
        is_uuid_v4(r.0.id@),
        r.0.id@.len() == 36,
        r.0.name == req.name,
        r.0.allowed_numbers == req.allowed_numbers,
        r.0.can_read == req.can_read,
        r.0.can_delete == req.can_delete,
        r.0.is_admin == req.is_admin,
        r.0.last_used_at is None,
        crate::db::clock::is_rfc3339_instant(r.0.created_at@),
{
    let raw_token = if req.is_admin {
        generate_token("sms_adm")
    } else {
        generate_token("sms_tok")
    };
    let id = new_uuid();
    let now = now_rfc3339();
    new_api_token_record_at(req, raw_token, id, now)
}

/// A message record for a forwarded SMS with the identifier `id`: received at the reported
/// time, or at `now` when none was reported; unread.
pub fn new_message_record_at(req: IngestSmsRequest, extracted_code: Option<String>, id: String, now: String) -> (r: Message)
    ensures
        r.id == id,
        r.received_at == match req.received_at {
            Some(t) => t,
            None => now,
        },
        r.recipient_number == req.recipient_number,
        r.sender == req.sender,
        r.body == req.body,
        r.device_id == req.device_id,
        r.sim_slot == req.sim_slot,
        r.extracted_code == extracted_code,
        r.raw_metadata == req.metadata,
        !r.is_read,
{
    let received_at = match req.received_at {
        Some(t) => t,
        None => now,
    };
    Message {
        id,
        recipient_number: req.recipient_number,
        sender: req.sender,
        body: req.body,
        received_at,
        device_id: req.device_id,
        sim_slot: req.sim_slot,
        extracted_code,
        raw_metadata: req.metadata,
        is_read: false,
    }
}

/// A new message record for a forwarded SMS: a fresh identifier, the reported receipt time
/// (the current time, in RFC 3339 form, when absent), unread.
pub fn new_message_record(req: IngestSmsRequest, extracted_code: Option<String>) -> (r: Message)
    ensures
        is_uuid_v4(r.id@),
        r.id@.len() == 36,
        r.recipient_number == req.recipient_number,
        r.sender == req.sender,
        r.body == req.body,
        req.received_at matches Some(t) ==> r.received_at == t,
        req.received_at is None ==> crate::db::clock::is_rfc3339_instant(r.received_at@),
        r.device_id == req.device_id,
        r.sim_slot == req.sim_slot,
        r.extracted_code == extracted_code,
        r.raw_metadata == req.metadata,
        !r.is_read,
{
    let id = new_uuid();
    let now = now_rfc3339();
    new_message_record_at(req, extracted_code, id, now)
}

} // verus!
