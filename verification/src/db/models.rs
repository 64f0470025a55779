//! The records the gateway stores and hands out.

use vstd::prelude::*;
use crate::text::{chars_eq, eq_ignore_ascii_case, remove_separators, str_eq};

verus! {

/// An API or MCP access token, with the phone numbers it may read.
#[derive(Debug, Clone)]
pub struct ApiToken {
    pub id: String,
    pub token_hash: String,
    pub token_prefix: String,
    pub name: String,
    pub allowed_numbers: Vec<String>,
    pub can_read: bool,
    pub can_delete: bool,
    pub is_admin: bool,
    pub created_at: String,
    pub last_used_at: Option<String>,
}

/// An allow-list entry that grants every number: `*`, or `ALL` in any ASCII case.
pub open spec fn is_wildcard_entry(a: Seq<char>) -> bool {
    a == "*"@ || crate::text::eq_ignore_ascii_case_bytes(vstd::utf8::encode_utf8(a), vstd::utf8::encode_utf8("ALL"@))
}

/// Whether one allow-list entry grants `number`: it is a wildcard, or it names the same
/// number once spaces, dashes and parentheses are ignored.
pub open spec fn entry_grants(entry: Seq<char>, number: Seq<char>) -> bool {
    is_wildcard_entry(entry) || crate::text::without_separators(entry) == crate::text::without_separators(number)
}

impl ApiToken {
    /// The allow-list as character sequences.
    pub open spec fn allowed(&self) -> Seq<Seq<char>> {
        self.allowed_numbers@.map_values(|s: String| s@)
    }

    /// Whether the token may access `number`: admin tokens may access every number,
    /// other tokens those that some entry of their allow-list grants.
    pub open spec fn may_access(&self, number: Seq<char>) -> bool {
        self.is_admin || exists|i: int|
            0 <= i < self.allowed().len() && #[trigger] entry_grants(self.allowed()[i], number)
    }

    /// Checks if this token is authorized to access a given phone number.
    pub fn can_access_number(&self, number: &str) -> (r: bool)
        ensures
            r == self.may_access(number@),
    {
        if self.is_admin {
            return true;
        }
        let clean_target = remove_separators(number);
        let mut i: usize = 0;
        while i < self.allowed_numbers.len()
            invariant
                i <= self.allowed_numbers@.len(),
                !self.is_admin,
                clean_target@ == crate::text::without_separators(number@),
                forall|j: int| 0 <= j < i ==> !#[trigger] entry_grants(self.allowed()[j], number@),
            decreases self.allowed_numbers@.len() - i,
        {
            let allowed: &str = self.allowed_numbers[i].as_str();
            assert(self.allowed()[i as int] == allowed@);
            if str_eq(allowed, "*") || eq_ignore_ascii_case(allowed, "ALL") {
                assert(entry_grants(self.allowed()[i as int], number@));
                return true;
            }
            let clean_allowed = remove_separators(allowed);
            if chars_eq(clean_allowed.as_slice(), clean_target.as_slice()) {
                assert(entry_grants(self.allowed()[i as int], number@));
                return true;
            }
            i = i + 1;
        }
        false
    }
}

/// Admin tokens may access every phone number.
pub proof fn law_admin_accesses_every_number(token: ApiToken, number: Seq<char>)
    requires
        token.is_admin,
    ensures
        token.may_access(number),
{
}

/// A token whose allow-list holds a wildcard entry may access every phone number.
pub proof fn law_wildcard_accesses_every_number(token: ApiToken, i: int, number: Seq<char>)
    requires
        0 <= i < token.allowed().len(),
        is_wildcard_entry(token.allowed()[i]),
    ensures
        token.may_access(number),
{
    assert(entry_grants(token.allowed()[i], number));
}

/// A token may access every number that its allow-list names verbatim.
pub proof fn law_listed_number_is_accessible(token: ApiToken, number: Seq<char>)
    requires
        token.allowed().contains(number),
    ensures
        token.may_access(number),
{
    let i = choose|i: int| 0 <= i < token.allowed().len() && token.allowed()[i] == number;
    assert(entry_grants(token.allowed()[i], number));
}

/// Spaces, dashes and parentheses in the requested number never change the decision.
pub proof fn law_separators_do_not_matter(token: ApiToken, number: Seq<char>)
    ensures
        token.may_access(number) == token.may_access(crate::text::without_separators(number)),
{
    crate::text::lemma_without_separators_idempotent(number);
    if token.may_access(number) && !token.is_admin {
        let i = choose|i: int| 0 <= i < token.allowed().len() && #[trigger] entry_grants(token.allowed()[i], number);
        assert(entry_grants(token.allowed()[i], crate::text::without_separators(number)));
    }
    if token.may_access(crate::text::without_separators(number)) && !token.is_admin {
        let i = choose|i: int| 0 <= i < token.allowed().len() && #[trigger] entry_grants(token.allowed()[i], crate::text::without_separators(number));
        assert(entry_grants(token.allowed()[i], number));
    }
}

} // verus!

verus! {

/// An SMS message as stored.
#[derive(Debug, Clone)]
pub struct Message {
    pub id: String,
    pub recipient_number: String,
    pub sender: String,
    pub body: String,
    pub received_at: String,
    pub device_id: Option<String>,
    pub sim_slot: Option<i32>,
    pub extracted_code: Option<String>,
    pub raw_metadata: Option<String>,
    pub is_read: bool,
}

/// The most recent one-time code found for a number.
#[derive(Debug, Clone)]
pub struct OtpResult {
    pub code: String,
    pub message_id: String,
    pub recipient_number: String,
    pub sender: String,
    pub body: String,
    pub received_at: String,
}

/// Filters for listing messages.
#[derive(Debug, Clone)]
pub struct MessageQueryFilter {
    pub number: Option<String>,
    pub sender: Option<String>,
    pub search: Option<String>,
    pub limit: Option<i64>,
    pub offset: Option<i64>,
    pub since: Option<String>,
}

impl Default for MessageQueryFilter {
    fn default() -> (r: Self)
        ensures
            r.number is None,
            r.sender is None,
            r.search is None,
            r.limit is None,
            r.offset is None,
            r.since is None,
    {
        MessageQueryFilter { number: None, sender: None, search: None, limit: None, offset: None, since: None }
    }
}

} // verus!

verus! {

/// A phone number that messages arrive on.
#[derive(Debug, Clone)]
pub struct PhoneNumber {
    pub phone_number: String,
    pub label: Option<String>,
    pub created_at: String,
    pub last_seen_at: String,
    pub device_id: Option<String>,
    pub is_active: bool,
    pub message_count: Option<i64>,
}

/// A phone or other client that forwards SMS.
#[derive(Debug, Clone)]
pub struct Device {
    pub id: String,
    pub name: String,
    pub platform: String,
    pub token_hash: String,
    pub created_at: String,
    pub last_seen_at: String,
}

/// An SMS as a device forwards it. `metadata` holds the JSON text of the optional metadata.
#[derive(Debug, Clone)]
pub struct IngestSmsRequest {
    pub recipient_number: String,
    pub sender: String,
    pub body: String,
    pub received_at: Option<String>,
    pub device_id: Option<String>,
    pub sim_slot: Option<i32>,
    pub metadata: Option<String>,
}

/// A request to create an access token.
#[derive(Debug, Clone)]
pub struct CreateTokenRequest {
    pub name: String,
    pub allowed_numbers: Vec<String>,
    pub can_read: bool,
    pub can_delete: bool,
    pub is_admin: bool,
}

/// The value `can_read` takes when a token request leaves it out.
pub fn default_true() -> (r: bool)
    ensures
        r,
{
    true
}

/// A created token and its secret, which is shown only once.
#[derive(Debug, Clone)]
pub struct CreateTokenResponse {
    pub token: ApiToken,
    pub secret: String,
}

/// A request to register a device.
#[derive(Debug, Clone)]
pub struct CreateDeviceRequest {
    pub name: String,
    pub platform: String,
}

/// A registered device, its secret token and the pairing payload for a QR code.
#[derive(Debug, Clone)]
pub struct CreateDeviceResponse {
    pub device: Device,
    pub token: String,
    pub qr_data: String,
}

} // verus!
