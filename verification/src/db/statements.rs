//! The fixed SQL statements of the store: its schema and the statements whose text does
//! not depend on the request. (Statements that do are built in `query`.)

use vstd::prelude::*;

verus! {

/// The database pragmas set on every new connection.
pub const CONNECTION_PRAGMAS: &'static str = "PRAGMA journal_mode = WAL; PRAGMA synchronous = NORMAL; PRAGMA foreign_keys = ON;";

/// The schema: phone numbers, devices, messages and API tokens, with their indexes.
pub const SCHEMA: &'static str = "
CREATE TABLE IF NOT EXISTS phone_numbers (
    phone_number TEXT PRIMARY KEY,
    label TEXT,
    created_at TEXT NOT NULL,
    last_seen_at TEXT NOT NULL,
    device_id TEXT,
    is_active INTEGER NOT NULL DEFAULT 1
);

CREATE TABLE IF NOT EXISTS devices (
    id TEXT PRIMARY KEY,
    name TEXT NOT NULL,
    platform TEXT NOT NULL,
    token_hash TEXT UNIQUE NOT NULL,
    created_at TEXT NOT NULL,
    last_seen_at TEXT NOT NULL
);

CREATE TABLE IF NOT EXISTS messages (
    id TEXT PRIMARY KEY,
    recipient_number TEXT NOT NULL,
    sender TEXT NOT NULL,
    body TEXT NOT NULL,
    received_at TEXT NOT NULL,
    device_id TEXT,
    sim_slot INTEGER,
    extracted_code TEXT,
    raw_metadata TEXT,
    is_read INTEGER NOT NULL DEFAULT 0,
    FOREIGN KEY (recipient_number) REFERENCES phone_numbers(phone_number) ON DELETE CASCADE
);

CREATE INDEX IF NOT EXISTS idx_messages_recipient ON messages(recipient_number);
CREATE INDEX IF NOT EXISTS idx_messages_received ON messages(received_at DESC);
CREATE INDEX IF NOT EXISTS idx_messages_sender ON messages(sender);
CREATE INDEX IF NOT EXISTS idx_messages_code ON messages(extracted_code);

CREATE TABLE IF NOT EXISTS api_tokens (
    id TEXT PRIMARY KEY,
    token_hash TEXT UNIQUE NOT NULL,
    token_prefix TEXT NOT NULL,
    name TEXT NOT NULL,
    allowed_numbers TEXT NOT NULL,
    can_read INTEGER NOT NULL DEFAULT 1,
    can_delete INTEGER NOT NULL DEFAULT 0,
    is_admin INTEGER NOT NULL DEFAULT 0,
    created_at TEXT NOT NULL,
    last_used_at TEXT
);

CREATE INDEX IF NOT EXISTS idx_tokens_hash ON api_tokens(token_hash);
";

/// Counts the admin tokens.
pub const COUNT_ADMIN_TOKENS: &'static str = "SELECT count(*) FROM api_tokens WHERE is_admin = 1";

/// Installs the master admin token (id, hash, prefix, name, allow-list, created_at).
pub const UPSERT_ADMIN_TOKEN: &'static str = "INSERT OR REPLACE INTO api_tokens (id, token_hash, token_prefix, name, allowed_numbers, can_read, can_delete, is_admin, created_at) VALUES (?1, ?2, ?3, ?4, ?5, 1, 1, 1, ?6)";

/// Records the use of a token (time, hash).
pub const TOUCH_API_TOKEN: &'static str = "UPDATE api_tokens SET last_used_at = ?1 WHERE token_hash = ?2";

/// The token with a given hash.
pub const SELECT_API_TOKEN_BY_HASH: &'static str = "SELECT id, token_hash, token_prefix, name, allowed_numbers, can_read, can_delete, is_admin, created_at, last_used_at FROM api_tokens WHERE token_hash = ?1";

/// Every token, newest first.
pub const SELECT_API_TOKENS: &'static str = "SELECT id, token_hash, token_prefix, name, allowed_numbers, can_read, can_delete, is_admin, created_at, last_used_at FROM api_tokens ORDER BY created_at DESC";

/// Stores a token (id, hash, prefix, name, allow-list, can_read, can_delete, is_admin, created_at).
pub const INSERT_API_TOKEN: &'static str = "INSERT INTO api_tokens (id, token_hash, token_prefix, name, allowed_numbers, can_read, can_delete, is_admin, created_at) VALUES (?1, ?2, ?3, ?4, ?5, ?6, ?7, ?8, ?9)";

/// Revokes a token by id.
pub const DELETE_API_TOKEN: &'static str = "DELETE FROM api_tokens WHERE id = ?1";

/// Records that a device was seen (time, hash).
pub const TOUCH_DEVICE: &'static str = "UPDATE devices SET last_seen_at = ?1 WHERE token_hash = ?2";

/// The device with a given token hash.
pub const SELECT_DEVICE_BY_HASH: &'static str = "SELECT id, name, platform, token_hash, created_at, last_seen_at FROM devices WHERE token_hash = ?1";

/// Stores a device (id, name, platform, hash, created_at, last_seen_at).
pub const INSERT_DEVICE: &'static str = "INSERT INTO devices (id, name, platform, token_hash, created_at, last_seen_at) VALUES (?1, ?2, ?3, ?4, ?5, ?6)";

/// Every device, most recently seen first.
pub const SELECT_DEVICES: &'static str = "SELECT id, name, platform, token_hash, created_at, last_seen_at FROM devices ORDER BY last_seen_at DESC";

/// Adds a phone number or refreshes it (number, label, created_at, last_seen_at, device);
/// a given label or device replaces the stored one.
pub const UPSERT_PHONE_NUMBER: &'static str = "INSERT INTO phone_numbers (phone_number, label, created_at, last_seen_at, device_id, is_active) VALUES (?1, ?2, ?3, ?4, ?5, 1) ON CONFLICT(phone_number) DO UPDATE SET last_seen_at = excluded.last_seen_at, label = COALESCE(excluded.label, phone_numbers.label), device_id = COALESCE(excluded.device_id, phone_numbers.device_id), is_active = 1";

/// One phone number.
pub const SELECT_PHONE_NUMBER: &'static str = "SELECT phone_number, label, created_at, last_seen_at, device_id, is_active FROM phone_numbers WHERE phone_number = ?1";

/// Every phone number with its message count, most recently seen first.
pub const SELECT_PHONE_NUMBERS: &'static str = "SELECT p.phone_number, p.label, p.created_at, p.last_seen_at, p.device_id, p.is_active, (SELECT COUNT(*) FROM messages m WHERE m.recipient_number = p.phone_number) AS msg_count FROM phone_numbers p ORDER BY p.last_seen_at DESC";

/// Stores a message (id, recipient, sender, body, received_at, device, SIM slot, code, metadata).
pub const INSERT_MESSAGE: &'static str = "INSERT INTO messages (id, recipient_number, sender, body, received_at, device_id, sim_slot, extracted_code, raw_metadata, is_read) VALUES (?1, ?2, ?3, ?4, ?5, ?6, ?7, ?8, ?9, 0)";

/// One message by id.
pub const SELECT_MESSAGE: &'static str = "SELECT id, recipient_number, sender, body, received_at, device_id, sim_slot, extracted_code, raw_metadata, is_read FROM messages WHERE id = ?1";

/// Deletes one message by id.
pub const DELETE_MESSAGE: &'static str = "DELETE FROM messages WHERE id = ?1";

} // verus!
