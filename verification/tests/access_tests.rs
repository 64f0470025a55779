use hermesgate::db::access::{accessible_numbers, may_delete, visible_message};
use hermesgate::db::models::{ApiToken, Message, PhoneNumber};

fn token(allowed: &[&str], is_admin: bool) -> ApiToken {
    ApiToken {
        id: "t1".to_string(),
        token_hash: "h".to_string(),
        token_prefix: "sms_tok_abc...".to_string(),
        name: "Agent".to_string(),
        allowed_numbers: allowed.iter().map(|s| s.to_string()).collect(),
        can_read: true,
        can_delete: false,
        is_admin,
        created_at: "2024-01-01T00:00:00+00:00".to_string(),
        last_used_at: None,
    }
}

fn number(n: &str) -> PhoneNumber {
    PhoneNumber {
        phone_number: n.to_string(),
        label: None,
        created_at: "c".to_string(),
        last_seen_at: "l".to_string(),
        device_id: None,
        is_active: true,
        message_count: Some(0),
    }
}

fn message(recipient: &str) -> Message {
    Message {
        id: "m1".to_string(),
        recipient_number: recipient.to_string(),
        sender: "Bank".to_string(),
        body: "Your code is 123456".to_string(),
        received_at: "2024-01-01T00:00:00+00:00".to_string(),
        device_id: None,
        sim_slot: None,
        extracted_code: Some("123456".to_string()),
        raw_metadata: None,
        is_read: false,
    }
}

#[test]
fn listed_number_is_accessible() {
    let t = token(&["+15551111111"], false);
    assert!(t.can_access_number("+15551111111"));
    assert!(!t.can_access_number("+15552222222"));
}

#[test]
fn admin_accesses_everything() {
    let t = token(&[], true);
    assert!(t.can_access_number("+15552222222"));
    assert!(t.can_access_number(""));
}

#[test]
fn wildcards_grant_everything() {
    assert!(token(&["*"], false).can_access_number("+4179000000"));
    assert!(token(&["ALL"], false).can_access_number("+4179000000"));
    assert!(token(&["all"], false).can_access_number("+4179000000"));
    assert!(token(&["aLl"], false).can_access_number("+4179000000"));
    assert!(!token(&["alll"], false).can_access_number("+4179000000"));
    assert!(!token(&["**"], false).can_access_number("+4179000000"));
}

#[test]
fn separators_are_ignored() {
    let t = token(&["+1 (555) 111-1111"], false);
    assert!(t.can_access_number("+15551111111"));
    assert!(t.can_access_number("+1-555-111-1111"));
    assert!(!t.can_access_number("+1.555.111.1111"));
    let u = token(&["+15551111111"], false);
    assert!(u.can_access_number("+1 555 111 1111"));
}

#[test]
fn empty_allow_list_grants_nothing() {
    let t = token(&[], false);
    assert!(!t.can_access_number("+15551111111"));
}

#[test]
fn accessible_numbers_keeps_order_and_drops_others() {
    let t = token(&["+1", "+3"], false);
    let kept = accessible_numbers(vec![number("+3"), number("+2"), number("+1")], &t);
    let names: Vec<String> = kept.iter().map(|p| p.phone_number.clone()).collect();
    assert_eq!(names, vec!["+3".to_string(), "+1".to_string()]);
}

#[test]
fn hidden_messages_are_not_visible() {
    let t = token(&["+1"], false);
    assert!(visible_message(Some(message("+1")), &t).is_some());
    assert!(visible_message(Some(message("+2")), &t).is_none());
    assert!(visible_message(None, &t).is_none());
}

#[test]
fn deletion_needs_visibility_and_rights() {
    let mut t = token(&["+1"], false);
    let seen = visible_message(Some(message("+1")), &t);
    assert!(!may_delete(&seen, &t));
    t.can_delete = true;
    assert!(may_delete(&seen, &t));
    assert!(!may_delete(&None, &t));
    let admin = token(&[], true);
    assert!(may_delete(&Some(message("+9")), &admin));
}
