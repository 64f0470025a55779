//! Access tokens as stored: the allow-list kept as JSON text, the master admin token.

use vstd::prelude::*;
use crate::db::clock::now_rfc3339;
use crate::db::crypto::{generate_token, hash_token};
use crate::db::models::ApiToken;
use crate::text::{chars_of, push_all, string_from_chars};

verus! {

/// The JSON text that `serde_json::to_string` writes for a list of strings; `None` when it
/// reports an error.
pub uninterp spec fn json_of_strings(items: Seq<Seq<char>>) -> Option<Seq<char>>;

/// The list of strings that `serde_json::from_str::<Vec<String>>` reads from `text`; `None`
/// when it reports an error.
pub uninterp spec fn strings_of_json(text: Seq<char>) -> Option<Seq<Seq<char>>>;

pub open spec fn strings_view(v: Seq<String>) -> Seq<Seq<char>> {
    v.map_values(|s: String| s@)
}

/// Calls `serde_json::to_string` on a list of strings; the contract claims that the result
/// is `json_of_strings` of the list.
#[verifier::external_body]
fn to_json_strings(items: &Vec<String>) -> (r: Option<String>)
    ensures
        match r {
            Some(t) => json_of_strings(strings_view(items@)) == Some(t@),
            None => json_of_strings(strings_view(items@)) is None,
        },
{
    serde_json::to_string(items).ok()
}

/// Calls `serde_json::from_str::<Vec<String>>`; the contract claims that the result is
/// `strings_of_json` of the text.
#[verifier::external_body]
fn from_json_strings(text: &str) -> (r: Option<Vec<String>>)
    ensures
        match r {
            Some(v) => strings_of_json(text@) == Some(strings_view(v@)),
            None => strings_of_json(text@) is None,
        },
{
    serde_json::from_str::<Vec<String>>(text).ok()
}

/// The stored JSON text of an allow-list (`[]` if it cannot be written).
pub open spec fn allow_list_text(items: Seq<Seq<char>>) -> Seq<char> {
    match json_of_strings(items) {
        Some(t) => t,
        None => "[]"@,
    }
}

/// The JSON text an allow-list is stored as.
pub fn allowed_numbers_json(items: &Vec<String>) -> (r: String)
    ensures
        r@ == allow_list_text(strings_view(items@)),
{
    match to_json_strings(items) {
        Some(t) => t,
        None => string_from_chars(chars_of("[]").as_slice()),
    }
}

/// The allow-list read back from its stored JSON text (empty if the text does not parse).
pub open spec fn allow_list_of(text: Seq<char>) -> Seq<Seq<char>> {
    match strings_of_json(text) {
        Some(v) => v,
        None => seq![],
    }
}

/// An `api_tokens` row as read: the allow-list still JSON text and the flags integers.
#[derive(Debug, Clone)]
pub struct ApiTokenRow {
    pub id: String,
    pub token_hash: String,
    pub token_prefix: String,
    pub name: String,
    pub allowed_numbers: String,
    pub can_read: i32,
    pub can_delete: i32,
    pub is_admin: i32,
    pub created_at: String,
    pub last_used_at: Option<String>,
}

/// The token a stored row describes: the allow-list parsed from JSON, each flag set when
/// its column is non-zero.
pub fn api_token_from_row(row: ApiTokenRow) -> (t: ApiToken)
    ensures
        t.id == row.id,
        t.token_hash == row.token_hash,
        t.token_prefix == row.token_prefix,
        t.name == row.name,
        t.allowed() == allow_list_of(row.allowed_numbers@),
        t.can_read == (row.can_read != 0),
        t.can_delete == (row.can_delete != 0),
        t.is_admin == (row.is_admin != 0),
        t.created_at == row.created_at,
        t.last_used_at == row.last_used_at,
{
    let allowed_numbers = match from_json_strings(row.allowed_numbers.as_str()) {
        Some(v) => v,
        None => Vec::new(),
    };
    proof {
        if strings_of_json(row.allowed_numbers@) is None {
            assert(strings_view(allowed_numbers@) =~= Seq::<Seq<char>>::empty());
        }
    }
    ApiToken {
        id: row.id,
        token_hash: row.token_hash,
        token_prefix: row.token_prefix,
        name: row.name,
        allowed_numbers,
        can_read: row.can_read != 0,
        can_delete: row.can_delete != 0,
        is_admin: row.is_admin != 0,
        created_at: row.created_at,
        last_used_at: row.last_used_at,
    }
}

/// What start-up does about the master admin token.
#[derive(Debug, Clone)]
pub enum AdminBootstrap {
    /// An admin token exists and none was configured: keep it; the text stands in for
    /// the secret, which is not known.
    Existing(String),
    /// Install (or replace) this admin record, whose secret is the given token.
    Install(ApiToken, String),
}

/// Whether `prefix` is the display prefix of the admin token `raw`: when the token takes at
/// least 11 bytes, its longest prefix of at most 11 bytes (cut on a character boundary),
/// else `sms_adm`; then an ellipsis.
pub open spec fn is_admin_prefix(raw: Seq<char>, prefix: Seq<char>) -> bool {
    if crate::text::utf8_len(raw) >= 11 {
        exists|k: int| crate::text::is_byte_cut(raw, 11, k) && prefix == #[trigger] raw.take(k) + "..."@
    } else {
        prefix == "sms_adm..."@
    }
}

/// The master admin record for the secret `raw_token`, with the identifier `id` and the
/// creation time `now`: named "System Admin", allowed every number (`*`), with read,
/// delete and admin rights, never used.
pub fn admin_record_at(raw_token: &String, id: String, now: String) -> (t: ApiToken)
    ensures
        t.token_hash@ == crate::db::crypto::token_hash_of(raw_token@),
        is_admin_prefix(raw_token@, t.token_prefix@),
        t.id == id,
        t.name@ == "System Admin"@,
        t.allowed() == seq!["*"@],
        t.can_read && t.can_delete && t.is_admin,
        t.created_at == now,
        t.last_used_at is None,
{
    let token_hash = hash_token(raw_token.as_str());
    let chars = chars_of(raw_token.as_str());
    let mut prefix = if crate::text::utf8_len_capped(chars.as_slice(), 11) >= 11 {
        let cut = crate::text::byte_cut(chars.as_slice(), 11);
        string_from_chars(cut.as_slice())
    } else {
        string_from_chars(chars_of("sms_adm").as_slice())
    };
    let ghost head = prefix@;
    push_all(&mut prefix, "...");
    proof {
        if crate::text::utf8_len(raw_token@) >= 11 {
            let k = choose|k: int| crate::text::is_byte_cut(raw_token@, 11, k) && #[trigger] raw_token@.take(k) == head;
            assert(prefix@ == raw_token@.take(k) + "..."@);
        } else {
            assert(prefix@ =~= "sms_adm"@ + "..."@);
            assert("sms_adm"@ + "..."@ =~= "sms_adm..."@) by {
                reveal_strlit("sms_adm");
                reveal_strlit("...");
                reveal_strlit("sms_adm...");
            }
        }
    }
    let mut allowed: Vec<String> = Vec::new();
    allowed.push(string_from_chars(chars_of("*").as_slice()));
    assert(strings_view(allowed@) =~= seq!["*"@]);
    ApiToken {
        id,
        token_hash,
        token_prefix: prefix,
        name: string_from_chars(chars_of("System Admin").as_slice()),
        allowed_numbers: allowed,
        can_read: true,
        can_delete: true,
        is_admin: true,
        created_at: now,
        last_used_at: None,
    }
}

/// Decides how to set up the master admin token, given the number of admin tokens stored
/// and the configured one, if any. A configured token always replaces; otherwise a fresh
/// `sms_adm_…` token is made only when no admin token exists.
pub fn admin_bootstrap(admin_count: i64, custom_admin_token: Option<&str>) -> (r: AdminBootstrap)
    ensures
        (admin_count > 0 && custom_admin_token is None) <==> r is Existing,
        r matches AdminBootstrap::Existing(s) ==> s@ == "(existing admin token active)"@,
        r matches AdminBootstrap::Install(t, raw) ==> {
            &&& match custom_admin_token {
                Some(c) => raw@ == c@,
                None => crate::db::crypto::is_generated_token(raw@, "sms_adm"@),
            }
            &&& t.token_hash@ == crate::db::crypto::token_hash_of(raw@)
            &&& is_admin_prefix(raw@, t.token_prefix@)
            &&& t.name@ == "System Admin"@
            &&& t.allowed() == seq!["*"@]
            &&& t.can_read && t.can_delete && t.is_admin
            &&& crate::db::records::is_uuid_v4(t.id@)
            &&& t.id@.len() == 36
            &&& t.last_used_at is None
            &&& crate::db::clock::is_rfc3339_instant(t.created_at@)
        },
{
    if admin_count > 0 && custom_admin_token.is_none() {
        return AdminBootstrap::Existing(string_from_chars(chars_of("(existing admin token active)").as_slice()));
    }
    let raw_token = match custom_admin_token {
        Some(t) => string_from_chars(chars_of(t).as_slice()),
        None => generate_token("sms_adm"),
    };
    let id = crate::db::records::new_uuid();
    let now = now_rfc3339();
    let token = admin_record_at(&raw_token, id, now);
    AdminBootstrap::Install(token, raw_token)
}

} // verus!
