use hermesgate::db::crypto::{encode, generate_token, hash_token};
use hermesgate::db::models::{default_true, CreateTokenRequest, IngestSmsRequest};
use hermesgate::db::records::{
    new_api_token_record, new_api_token_record_at, new_device_record, new_device_record_at, new_message_record,
    new_message_record_at,
};
use hermesgate::db::tokens::{admin_bootstrap, admin_record_at, allowed_numbers_json, api_token_from_row, AdminBootstrap, ApiTokenRow};

fn is_hex(s: &str) -> bool {
    s.chars().all(|c| c.is_ascii_digit() || ('a'..='f').contains(&c))
}

#[test]
fn hex_encoding_is_lowercase_two_digits_per_byte() {
    assert_eq!(encode(&[0x00, 0x0f, 0xab, 0xff]), "000fabff");
    assert_eq!(encode(&[]), "");
}

#[test]
fn hash_token_is_hex_sha256() {
    assert_eq!(hash_token("abc"), "ba7816bf8f01cfea414140de5dae2223b00361a396177a9cb410ff61f20015ad");
    assert_eq!(hash_token(""), "e3b0c44298fc1c149afbf4c8996fb92427ae41e4649b934ca495991b7852b855");
    assert_ne!(hash_token("abc"), "abc");
}

#[test]
fn generated_tokens_have_prefix_and_48_hex_digits() {
    let t = generate_token("sms_tok");
    assert!(t.starts_with("sms_tok_"));
    assert_eq!(t.len(), 7 + 1 + 48);
    assert!(is_hex(&t[8..]));
    assert_ne!(generate_token("sms_tok"), t);
}

#[test]
fn default_can_read_is_true() {
    assert!(default_true());
}

#[test]
fn api_token_record_matches_request_and_secret() {
    let (token, secret) = new_api_token_record(CreateTokenRequest {
        name: "Agent A".to_string(),
        allowed_numbers: vec!["+15551111111".to_string()],
        can_read: true,
        can_delete: false,
        is_admin: false,
    });
    assert!(secret.starts_with("sms_tok_"));
    assert_eq!(token.token_hash, hash_token(&secret));
    assert_eq!(token.token_prefix, format!("{}...", &secret[..11]));
    assert_eq!(token.name, "Agent A");
    assert_eq!(token.allowed_numbers, vec!["+15551111111".to_string()]);
    assert!(token.can_read && !token.can_delete && !token.is_admin);
    assert_eq!(token.id.len(), 36);
    assert!(token.last_used_at.is_none());

    let (admin, admin_secret) = new_api_token_record(CreateTokenRequest {
        name: "Admin".to_string(),
        allowed_numbers: vec!["*".to_string()],
        can_read: true,
        can_delete: true,
        is_admin: true,
    });
    assert!(admin_secret.starts_with("sms_adm_"));
    assert!(admin.is_admin);
}

#[test]
fn device_record_keeps_only_the_hash() {
    let (device, secret) = new_device_record("Pixel 8 Test", "android", None);
    assert!(secret.starts_with("sms_dev_"));
    assert_eq!(device.token_hash, hash_token(&secret));
    assert!(device.id.starts_with("dev_"));
    assert_eq!(device.id.len(), 36);
    assert_eq!(device.name, "Pixel 8 Test");
    assert_eq!(device.platform, "android");
    assert_eq!(device.created_at, device.last_seen_at);

    let (_, custom) = new_device_record("Phone", "ios", Some("my-secret"));
    assert_eq!(custom, "my-secret");
}

#[test]
fn message_record_copies_the_request() {
    let req = IngestSmsRequest {
        recipient_number: "+1".to_string(),
        sender: "Bank".to_string(),
        body: "Your code is 123456".to_string(),
        received_at: Some("2026-09-11T21:30:00Z".to_string()),
        device_id: Some("dev_1".to_string()),
        sim_slot: Some(1),
        metadata: Some("{\"carrier\":\"Verizon\"}".to_string()),
    };
    let m = new_message_record(req, Some("123456".to_string()));
    assert_eq!(m.id.len(), 36);
    assert_eq!(m.received_at, "2026-09-11T21:30:00Z");
    assert_eq!(m.raw_metadata.as_deref(), Some("{\"carrier\":\"Verizon\"}"));
    assert_eq!(m.extracted_code.as_deref(), Some("123456"));
    assert_eq!(m.sim_slot, Some(1));
    assert!(!m.is_read);

    let m2 = new_message_record(
        IngestSmsRequest {
            recipient_number: "+1".to_string(),
            sender: "x".to_string(),
            body: "y".to_string(),
            received_at: None,
            device_id: None,
            sim_slot: None,
            metadata: None,
        },
        None,
    );
    assert!(!m2.received_at.is_empty());
}

fn row(allowed: &str, flags: (i32, i32, i32)) -> ApiTokenRow {
    ApiTokenRow {
        id: "id".to_string(),
        token_hash: "h".to_string(),
        token_prefix: "p".to_string(),
        name: "n".to_string(),
        allowed_numbers: allowed.to_string(),
        can_read: flags.0,
        can_delete: flags.1,
        is_admin: flags.2,
        created_at: "c".to_string(),
        last_used_at: Some("u".to_string()),
    }
}

#[test]
fn token_rows_parse_their_allow_list() {
    let t = api_token_from_row(row("[\"+1\",\"+2\"]", (1, 0, 2)));
    assert_eq!(t.allowed_numbers, vec!["+1".to_string(), "+2".to_string()]);
    assert!(t.can_read && !t.can_delete && t.is_admin);
    assert_eq!(t.last_used_at.as_deref(), Some("u"));
    let bad = api_token_from_row(row("not json", (0, 0, 0)));
    assert!(bad.allowed_numbers.is_empty());
    assert!(!bad.can_read);
}

#[test]
fn allow_lists_round_trip_through_json() {
    let list = vec!["+1 555".to_string(), "*".to_string()];
    let text = allowed_numbers_json(&list);
    assert_eq!(text, "[\"+1 555\",\"*\"]");
    assert_eq!(api_token_from_row(row(&text, (1, 1, 1))).allowed_numbers, list);
}

#[test]
fn admin_bootstrap_keeps_an_existing_admin() {
    match admin_bootstrap(1, None) {
        AdminBootstrap::Existing(s) => assert_eq!(s, "(existing admin token active)"),
        _ => panic!("expected the existing admin to be kept"),
    }
}

#[test]
fn admin_bootstrap_installs_configured_or_fresh_tokens() {
    match admin_bootstrap(3, Some("my-admin-secret-token")) {
        AdminBootstrap::Install(t, raw) => {
            assert_eq!(raw, "my-admin-secret-token");
            assert_eq!(t.token_prefix, "my-admin-se...");
            assert_eq!(t.token_hash, hash_token("my-admin-secret-token"));
            assert_eq!(t.name, "System Admin");
            assert_eq!(t.allowed_numbers, vec!["*".to_string()]);
            assert!(t.can_read && t.can_delete && t.is_admin);
        }
        _ => panic!("a configured token is always installed"),
    }
    match admin_bootstrap(0, Some("short")) {
        AdminBootstrap::Install(t, _) => assert_eq!(t.token_prefix, "sms_adm..."),
        _ => panic!("expected install"),
    }
    match admin_bootstrap(0, None) {
        AdminBootstrap::Install(t, raw) => {
            assert!(raw.starts_with("sms_adm_"));
            assert_eq!(t.token_prefix, format!("{}...", &raw[..11]));
        }
        _ => panic!("expected install"),
    }
}

fn is_uuid_v4(s: &str) -> bool {
    let b: Vec<char> = s.chars().collect();
    b.len() == 36
        && b.iter().enumerate().all(|(i, c)| {
            if i == 8 || i == 13 || i == 18 || i == 23 {
                *c == '-'
            } else {
                c.is_ascii_digit() || ('a'..='f').contains(c)
            }
        })
        && b[14] == '4'
        && matches!(b[19], '8' | '9' | 'a' | 'b')
}

#[test]
fn record_identifiers_are_version_4_uuids() {
    let (token, _) = new_api_token_record(CreateTokenRequest {
        name: "t".to_string(),
        allowed_numbers: vec![],
        can_read: true,
        can_delete: false,
        is_admin: false,
    });
    assert!(is_uuid_v4(&token.id));
    let (device, _) = new_device_record("d", "api", None);
    let simple = &device.id[4..];
    assert!(is_hex(simple));
    assert_eq!(simple.len(), 32);
    assert_eq!(&simple[12..13], "4");
    let m = new_message_record(
        IngestSmsRequest {
            recipient_number: "+1".to_string(),
            sender: "s".to_string(),
            body: "b".to_string(),
            received_at: None,
            device_id: None,
            sim_slot: None,
            metadata: None,
        },
        None,
    );
    assert!(is_uuid_v4(&m.id));
    assert_ne!(m.id, token.id);
}

#[test]
fn admin_bootstrap_accepts_a_non_ascii_fixed_token() {
    // 7 characters of 2 bytes each: the display prefix stops at the last whole character
    // within 11 bytes.
    match admin_bootstrap(0, Some("ééééééé")) {
        AdminBootstrap::Install(t, raw) => {
            assert_eq!(raw, "ééééééé");
            assert_eq!(t.token_prefix, "ééééé...");
            assert_eq!(t.token_hash, hash_token("ééééééé"));
            assert!(t.is_admin);
            assert_eq!(t.allowed_numbers, vec!["*".to_string()]);
        }
        _ => panic!("a configured token is always installed"),
    }
    match admin_bootstrap(0, Some("abcdefghij€x")) {
        AdminBootstrap::Install(t, _) => assert_eq!(t.token_prefix, "abcdefghij..."),
        _ => panic!("expected install"),
    }
}

fn ingest(received_at: Option<&str>) -> IngestSmsRequest {
    IngestSmsRequest {
        recipient_number: "+1".to_string(),
        sender: "Bank".to_string(),
        body: "Your code is 123456".to_string(),
        received_at: received_at.map(|t| t.to_string()),
        device_id: Some("dev_x".to_string()),
        sim_slot: Some(1),
        metadata: Some("{\"carrier\":\"X\"}".to_string()),
    }
}

#[test]
fn records_take_the_given_identifier_and_time() {
    let now = "2026-01-01T00:00:00+00:00".to_string();
    let m = new_message_record_at(ingest(None), Some("123456".to_string()), "id-1".to_string(), now.clone());
    assert_eq!(m.id, "id-1");
    assert_eq!(m.received_at, now);
    assert_eq!(m.extracted_code.as_deref(), Some("123456"));
    assert_eq!(m.raw_metadata.as_deref(), Some("{\"carrier\":\"X\"}"));
    assert!(!m.is_read);
    let reported = new_message_record_at(ingest(Some("2025-05-05T05:05:05Z")), None, "id-2".to_string(), now.clone());
    assert_eq!(reported.received_at, "2025-05-05T05:05:05Z");

    let (d, secret) = new_device_record_at("Pixel", "android", "sms_dev_abc".to_string(), "0123", now.clone());
    assert_eq!(d.id, "dev_0123");
    assert_eq!(secret, "sms_dev_abc");
    assert_eq!(d.token_hash, hash_token("sms_dev_abc"));
    assert_eq!((d.created_at.as_str(), d.last_seen_at.as_str()), (now.as_str(), now.as_str()));

    let req = CreateTokenRequest {
        name: "Agent".to_string(),
        allowed_numbers: vec!["+1".to_string()],
        can_read: true,
        can_delete: false,
        is_admin: false,
    };
    let (t, raw) = new_api_token_record_at(req, "sms_tok_0123456789".to_string(), "tid".to_string(), now.clone());
    assert_eq!(raw, "sms_tok_0123456789");
    assert_eq!(t.id, "tid");
    assert_eq!(t.token_prefix, "sms_tok_012...");
    assert_eq!(t.created_at, now);
    assert!(t.last_used_at.is_none());
    let (short, _) = new_api_token_record_at(
        CreateTokenRequest { name: "s".to_string(), allowed_numbers: vec![], can_read: true, can_delete: false, is_admin: false },
        "abc".to_string(),
        "sid".to_string(),
        now.clone(),
    );
    assert_eq!(short.token_prefix, "abc...");

    let admin = admin_record_at(&"sms_adm_0123456789".to_string(), "aid".to_string(), now.clone());
    assert_eq!(admin.id, "aid");
    assert_eq!(admin.token_prefix, "sms_adm_012...");
    assert_eq!(admin.created_at, now);
    assert!(admin.is_admin && admin.can_read && admin.can_delete);
}
