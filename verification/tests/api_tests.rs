use hermesgate::api::{
    check_delete_permission, check_device_name, check_number_access, check_token_name, latest_otp_max_age,
    message_not_found, prepare_forward, should_forward, token_not_found, upsert_number_input, UpsertNumberRequest,
};
use hermesgate::config::Config;
use hermesgate::db::models::{ApiToken, Device, IngestSmsRequest, Message};

fn token(allowed: &[&str], can_delete: bool, is_admin: bool) -> ApiToken {
    ApiToken {
        id: "t".to_string(),
        token_hash: "h".to_string(),
        token_prefix: "p".to_string(),
        name: "n".to_string(),
        allowed_numbers: allowed.iter().map(|s| s.to_string()).collect(),
        can_read: true,
        can_delete,
        is_admin,
        created_at: "c".to_string(),
        last_used_at: None,
    }
}

fn request(recipient: &str, sender: &str, body: &str) -> IngestSmsRequest {
    IngestSmsRequest {
        recipient_number: recipient.to_string(),
        sender: sender.to_string(),
        body: body.to_string(),
        received_at: None,
        device_id: None,
        sim_slot: Some(0),
        metadata: None,
    }
}

#[test]
fn blank_names_are_refused() {
    let e = check_device_name("   ").unwrap_err();
    assert_eq!((e.status, e.error.as_str(), e.message.as_str()), (400, "bad_request", "Device name cannot be empty"));
    assert!(check_device_name(" Pixel ").is_ok());
    let e = check_token_name("").unwrap_err();
    assert_eq!(e.message, "Token name cannot be empty");
    assert!(check_token_name("Agent").is_ok());
}

#[test]
fn upserted_numbers_are_trimmed() {
    let ok = upsert_number_input(&UpsertNumberRequest { phone_number: "  +1555 ".to_string(), label: None });
    assert_eq!(ok.unwrap(), "+1555");
    let e = upsert_number_input(&UpsertNumberRequest { phone_number: " \t".to_string(), label: None }).unwrap_err();
    assert_eq!(e.message, "phone_number cannot be empty");
}

#[test]
fn forwarding_fills_device_trims_and_extracts() {
    let device = Device {
        id: "dev_7".to_string(),
        name: "Pixel".to_string(),
        platform: "android".to_string(),
        token_hash: "h".to_string(),
        created_at: "c".to_string(),
        last_seen_at: "c".to_string(),
    };
    let p = prepare_forward(request(" +15550000001 ", " BankOne ", "Your login code is 829104"), Some(&device)).unwrap();
    assert_eq!(p.request.recipient_number, "+15550000001");
    assert_eq!(p.request.sender, "BankOne");
    assert_eq!(p.request.device_id.as_deref(), Some("dev_7"));
    assert_eq!(p.extracted_code.as_deref(), Some("829104"));

    let mut named = request("+1", "x", "hello");
    named.device_id = Some("pixel8_home".to_string());
    let p = prepare_forward(named, Some(&device)).unwrap();
    assert_eq!(p.request.device_id.as_deref(), Some("pixel8_home"));
    assert!(p.extracted_code.is_none());

    let e = prepare_forward(request("  ", "x", "body"), None).unwrap_err();
    assert_eq!((e.status, e.message.as_str()), (400, "recipient_number and body cannot be empty"));
    assert!(prepare_forward(request("+1", "x", ""), None).is_err());
}

#[test]
fn numbers_outside_the_allow_list_are_forbidden() {
    let t = token(&["+15550000001"], false, false);
    assert!(check_number_access(&t, None).is_ok());
    assert!(check_number_access(&t, Some("+15550000001")).is_ok());
    let e = check_number_access(&t, Some("+15550000002")).unwrap_err();
    assert_eq!((e.status, e.error.as_str()), (403, "forbidden"));
    assert_eq!(e.message, "Token is not authorized to access number +15550000002");
}

#[test]
fn deleting_needs_rights() {
    assert!(check_delete_permission(&token(&[], false, false)).is_err());
    assert!(check_delete_permission(&token(&[], true, false)).is_ok());
    assert!(check_delete_permission(&token(&[], false, true)).is_ok());
    assert_eq!(check_delete_permission(&token(&[], false, false)).unwrap_err().message, "Token lacks delete permission");
}

#[test]
fn defaults_and_not_found_answers() {
    assert_eq!(latest_otp_max_age(None), 10);
    assert_eq!(latest_otp_max_age(Some(3)), 3);
    assert_eq!(message_not_found().status, 404);
    assert_eq!(message_not_found().message, "Message not found or unauthorized");
    assert_eq!(token_not_found().message, "Token not found");
}

#[test]
fn websocket_only_forwards_accessible_messages() {
    let t = token(&["+1"], false, false);
    let mut m = Message {
        id: "m".to_string(),
        recipient_number: "+1".to_string(),
        sender: "s".to_string(),
        body: "b".to_string(),
        received_at: "r".to_string(),
        device_id: None,
        sim_slot: None,
        extracted_code: None,
        raw_metadata: None,
        is_read: false,
    };
    assert!(should_forward(&t, &m));
    m.recipient_number = "+2".to_string();
    assert!(!should_forward(&t, &m));
}

#[test]
fn server_url_and_bind_address() {
    let mut c = Config {
        host: "0.0.0.0".to_string(),
        port: 8080,
        db_path: "hermesgate.db".to_string(),
        admin_token: None,
        mcp_stdio: false,
        token: None,
    };
    assert_eq!(c.server_url(), "http://localhost:8080");
    assert_eq!(c.bind_address(), "0.0.0.0:8080");
    c.host = "10.0.0.5".to_string();
    c.port = 0;
    assert_eq!(c.server_url(), "http://10.0.0.5:0");
    c.port = 65535;
    assert_eq!(c.bind_address(), "10.0.0.5:65535");
}
