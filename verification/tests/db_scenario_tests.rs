use hermesgate::api::{check_number_access, latest_otp_max_age, prepare_forward};
use hermesgate::auth::DeviceOrAdmin;
use hermesgate::db::access::accessible_numbers;
use hermesgate::db::crypto::hash_token;
use hermesgate::db::models::{ApiToken, CreateTokenRequest, Device, IngestSmsRequest, Message, MessageQueryFilter, PhoneNumber};
use hermesgate::db::query::{latest_otp_query, message_query, SqlParam, SqlQuery};
use hermesgate::db::records::{new_api_token_record, new_device_record, new_message_record};
use hermesgate::db::statements::{
    INSERT_API_TOKEN, INSERT_DEVICE, INSERT_MESSAGE, SCHEMA, SELECT_API_TOKEN_BY_HASH, SELECT_DEVICE_BY_HASH,
    SELECT_PHONE_NUMBERS, UPSERT_PHONE_NUMBER,
};
use hermesgate::mcp::handler::{route_request, McpAction};
use hermesgate::mcp::protocol::{protocol_version, CallToolResult};
use hermesgate::mcp::tools::{get_tool_definitions, plan_tool_call, ToolArguments, ToolPlan};
use hermesgate::db::tokens::{allowed_numbers_json, api_token_from_row, ApiTokenRow};
use rusqlite::types::Value;
use rusqlite::{params_from_iter, Connection, OptionalExtension};

fn t(s: &str) -> Value {
    Value::Text(s.to_string())
}

fn ot(s: &Option<String>) -> Value {
    match s {
        Some(v) => Value::Text(v.clone()),
        None => Value::Null,
    }
}

fn integer(i: i64) -> Value {
    Value::Integer(i)
}

fn open() -> Connection {
    let conn = Connection::open_in_memory().unwrap();
    conn.execute_batch(SCHEMA).unwrap();
    conn
}

fn bind(q: &SqlQuery) -> Vec<rusqlite::types::Value> {
    q.params
        .iter()
        .map(|p| match p {
            SqlParam::Text(s) => rusqlite::types::Value::Text(s.clone()),
            SqlParam::Integer(i) => rusqlite::types::Value::Integer(*i),
        })
        .collect()
}

fn upsert_number(conn: &Connection, number: &str, label: Option<&str>) {
    let now = chrono::Utc::now().to_rfc3339();
    conn.execute(UPSERT_PHONE_NUMBER, params_from_iter(vec![t(number), ot(&label.map(|l| l.to_string())), t(&now), t(&now), Value::Null])).unwrap();
}

fn create_token(conn: &Connection, req: CreateTokenRequest) -> (ApiToken, String) {
    let (tok, raw) = new_api_token_record(req);
    conn.execute(
        INSERT_API_TOKEN,
        params_from_iter(vec![
            t(&tok.id),
            t(&tok.token_hash),
            t(&tok.token_prefix),
            t(&tok.name),
            t(&allowed_numbers_json(&tok.allowed_numbers)),
            integer(tok.can_read as i64),
            integer(tok.can_delete as i64),
            integer(tok.is_admin as i64),
            t(&tok.created_at),
        ]),
    )
    .unwrap();
    (tok, raw)
}

fn verify(conn: &Connection, raw: &str) -> Option<ApiToken> {
    conn.query_row(SELECT_API_TOKEN_BY_HASH, params_from_iter(vec![t(&hash_token(raw))]), |row| {
        Ok(api_token_from_row(ApiTokenRow {
            id: row.get(0)?,
            token_hash: row.get(1)?,
            token_prefix: row.get(2)?,
            name: row.get(3)?,
            allowed_numbers: row.get(4)?,
            can_read: row.get(5)?,
            can_delete: row.get(6)?,
            is_admin: row.get(7)?,
            created_at: row.get(8)?,
            last_used_at: row.get(9)?,
        }))
    })
    .optional()
    .unwrap()
}

fn insert(conn: &Connection, req: IngestSmsRequest, code: Option<String>) -> Message {
    let now = chrono::Utc::now().to_rfc3339();
    conn.execute(UPSERT_PHONE_NUMBER, params_from_iter(vec![t(&req.recipient_number), Value::Null, t(&now), t(&now), ot(&req.device_id)])).unwrap();
    let m = new_message_record(req, code);
    conn.execute(
        INSERT_MESSAGE,
        params_from_iter(vec![
            t(&m.id),
            t(&m.recipient_number),
            t(&m.sender),
            t(&m.body),
            t(&m.received_at),
            ot(&m.device_id),
            m.sim_slot.map(|s| integer(s as i64)).unwrap_or(Value::Null),
            ot(&m.extracted_code),
            ot(&m.raw_metadata),
        ]),
    )
    .unwrap();
    m
}

fn run_messages(conn: &Connection, q: Option<SqlQuery>) -> Vec<(String, Option<String>)> {
    let Some(q) = q else { return Vec::new() };
    let mut stmt = conn.prepare(&q.sql).unwrap();
    let rows = stmt
        .query_map(params_from_iter(bind(&q)), |row| Ok((row.get::<_, String>(1)?, row.get::<_, Option<String>>(7)?)))
        .unwrap();
    rows.map(|r| r.unwrap()).collect()
}

fn run_otp(conn: &Connection, q: Option<SqlQuery>) -> Option<String> {
    let q = q?;
    conn.query_row(&q.sql, params_from_iter(bind(&q)), |row| row.get::<_, String>(5)).optional().unwrap()
}

fn numbers(conn: &Connection) -> Vec<PhoneNumber> {
    let mut stmt = conn.prepare(SELECT_PHONE_NUMBERS).unwrap();
    let rows = stmt
        .query_map([], |row| {
            Ok(PhoneNumber {
                phone_number: row.get(0)?,
                label: row.get(1)?,
                created_at: row.get(2)?,
                last_seen_at: row.get(3)?,
                device_id: row.get(4)?,
                is_active: row.get::<_, i32>(5)? != 0,
                message_count: Some(row.get(6)?),
            })
        })
        .unwrap();
    rows.map(|r| r.unwrap()).collect()
}

fn sms(recipient: &str, sender: &str, body: &str, device: &str) -> IngestSmsRequest {
    IngestSmsRequest {
        recipient_number: recipient.to_string(),
        sender: sender.to_string(),
        body: body.to_string(),
        received_at: None,
        device_id: Some(device.to_string()),
        sim_slot: Some(0),
        metadata: None,
    }
}

#[test]
fn test_token_permissions_and_query_isolation() {
    let conn = open();

    upsert_number(&conn, "+15551111111", Some("Number 1"));
    upsert_number(&conn, "+15552222222", Some("Number 2"));

    let (token_a, raw_token_a) = create_token(
        &conn,
        CreateTokenRequest {
            name: "Agent A".to_string(),
            allowed_numbers: vec!["+15551111111".to_string()],
            can_read: true,
            can_delete: false,
            is_admin: false,
        },
    );
    let (token_b, _raw_token_b) = create_token(
        &conn,
        CreateTokenRequest {
            name: "Agent B".to_string(),
            allowed_numbers: vec!["+15552222222".to_string()],
            can_read: true,
            can_delete: false,
            is_admin: false,
        },
    );
    let (token_admin, _raw_admin) = create_token(
        &conn,
        CreateTokenRequest {
            name: "Admin".to_string(),
            allowed_numbers: vec!["*".to_string()],
            can_read: true,
            can_delete: true,
            is_admin: true,
        },
    );

    let verified = verify(&conn, &raw_token_a).unwrap();
    assert_eq!(verified.id, token_a.id);
    assert!(verified.can_access_number("+15551111111"));
    assert!(!verified.can_access_number("+15552222222"));

    insert(&conn, sms("+15551111111", "BankSecure", "Your security code is 781920", "dev_1"), Some("781920".to_string()));
    insert(&conn, sms("+15552222222", "GovAuth", "Use 645123 for two-factor login", "dev_2"), Some("645123".to_string()));

    let msgs_a = run_messages(&conn, message_query(&MessageQueryFilter::default(), &token_a));
    assert_eq!(msgs_a.len(), 1);
    assert_eq!(msgs_a[0].0, "+15551111111");
    assert_eq!(msgs_a[0].1, Some("781920".to_string()));

    let msgs_b = run_messages(&conn, message_query(&MessageQueryFilter::default(), &token_b));
    assert_eq!(msgs_b.len(), 1);
    assert_eq!(msgs_b[0].0, "+15552222222");
    assert_eq!(msgs_b[0].1, Some("645123".to_string()));

    let otp_a = run_otp(&conn, latest_otp_query(None, &token_a, 10)).unwrap();
    assert_eq!(otp_a, "781920");

    let otp_unauth = run_otp(&conn, latest_otp_query(Some("+15552222222"), &token_a, 10));
    assert!(otp_unauth.is_none(), "Token A must NOT be able to fetch OTP for Number 2");

    let msgs_admin = run_messages(&conn, message_query(&MessageQueryFilter::default(), &token_admin));
    assert_eq!(msgs_admin.len(), 2);

    let numbers_a = accessible_numbers(numbers(&conn), &token_a);
    assert_eq!(numbers_a.len(), 1);
    assert_eq!(numbers_a[0].phone_number, "+15551111111");
}

#[test]
fn filters_run_against_sqlite() {
    let conn = open();
    let (admin, _) = create_token(
        &conn,
        CreateTokenRequest { name: "Admin".to_string(), allowed_numbers: vec![], can_read: true, can_delete: true, is_admin: true },
    );
    insert(&conn, sms("+1", "Google", "G-551923 is your verification code", "d"), Some("G-551923".to_string()));
    insert(&conn, sms("+1", "Bank", "Hello there", "d"), None);
    insert(&conn, sms("+2", "Bank", "Your code is 829104", "d"), Some("829104".to_string()));

    let by_sender = MessageQueryFilter { sender: Some("goo".to_string()), ..MessageQueryFilter::default() };
    assert_eq!(run_messages(&conn, message_query(&by_sender, &admin)).len(), 1);
    let by_search = MessageQueryFilter { search: Some("code".to_string()), ..MessageQueryFilter::default() };
    assert_eq!(run_messages(&conn, message_query(&by_search, &admin)).len(), 2);
    let by_number = MessageQueryFilter { number: Some("+1".to_string()), ..MessageQueryFilter::default() };
    assert_eq!(run_messages(&conn, message_query(&by_number, &admin)).len(), 2);
    let limited = MessageQueryFilter { limit: Some(1), ..MessageQueryFilter::default() };
    assert_eq!(run_messages(&conn, message_query(&limited, &admin)).len(), 1);
    let paged = MessageQueryFilter { limit: Some(2), offset: Some(2), ..MessageQueryFilter::default() };
    assert_eq!(run_messages(&conn, message_query(&paged, &admin)).len(), 1);
    assert!(run_otp(&conn, latest_otp_query(Some("+2"), &admin, 10)).as_deref() == Some("829104"));
}

fn register_device(conn: &Connection, name: &str, platform: &str) -> (Device, String) {
    let (device, raw) = new_device_record(name, platform, None);
    conn.execute(
        INSERT_DEVICE,
        params_from_iter(vec![
            t(&device.id),
            t(&device.name),
            t(&device.platform),
            t(&device.token_hash),
            t(&device.created_at),
            t(&device.last_seen_at),
        ]),
    )
    .unwrap();
    (device, raw)
}

fn verify_device(conn: &Connection, raw: &str) -> Option<Device> {
    conn.query_row(SELECT_DEVICE_BY_HASH, params_from_iter(vec![t(&hash_token(raw))]), |row| {
        Ok(Device {
            id: row.get(0)?,
            name: row.get(1)?,
            platform: row.get(2)?,
            token_hash: row.get(3)?,
            created_at: row.get(4)?,
            last_seen_at: row.get(5)?,
        })
    })
    .optional()
    .unwrap()
}

fn agent(conn: &Connection, name: &str, allowed: &[&str], is_admin: bool) -> String {
    create_token(
        conn,
        CreateTokenRequest {
            name: name.to_string(),
            allowed_numbers: allowed.iter().map(|a| a.to_string()).collect(),
            can_read: true,
            can_delete: is_admin,
            is_admin,
        },
    )
    .1
}

/// Forwards an SMS the way the forwarding endpoint does, authenticated by a device token.
fn forward(conn: &Connection, device_token: &str, recipient: &str, sender: &str, body: &str, sim_slot: i32) {
    let device = verify_device(conn, device_token);
    let auth = DeviceOrAdmin::decide(device, None).unwrap();
    let payload = IngestSmsRequest {
        recipient_number: recipient.to_string(),
        sender: sender.to_string(),
        body: body.to_string(),
        received_at: None,
        device_id: None,
        sim_slot: Some(sim_slot),
        metadata: None,
    };
    let prepared = prepare_forward(payload, auth.device.as_ref()).unwrap();
    insert(conn, prepared.request, prepared.extracted_code);
}

#[test]
fn test_sms_forward_and_query_isolation() {
    let conn = open();
    let admin_token = agent(&conn, "Master Admin", &["*"], true);
    let (_device, device_token) = register_device(&conn, "Pixel 8 Test", "android");
    let tok1 = agent(&conn, "Agent 1", &["+15550000001"], false);
    let tok2 = agent(&conn, "Agent 2", &["+15550000002"], false);

    forward(&conn, &device_token, "+15550000001", "BankOne", "Your login code is 829104", 0);
    forward(&conn, &device_token, "+15550000002", "Google2FA", "G-551923 is your verification code", 1);

    let agent1 = verify(&conn, &tok1).unwrap();
    let messages = run_messages(&conn, message_query(&MessageQueryFilter::default(), &agent1));
    assert_eq!(messages.len(), 1);
    assert_eq!(messages[0].0, "+15550000001");
    assert_eq!(messages[0].1, Some("829104".to_string()));

    let refused = check_number_access(&agent1, Some("+15550000002")).unwrap_err();
    assert_eq!(refused.status, 403);

    let otp1 = run_otp(&conn, latest_otp_query(None, &agent1, latest_otp_max_age(None)));
    assert_eq!(otp1.as_deref(), Some("829104"));

    let agent2 = verify(&conn, &tok2).unwrap();
    let otp2 = run_otp(&conn, latest_otp_query(None, &agent2, latest_otp_max_age(None)));
    assert_eq!(otp2.as_deref(), Some("G-551923"));

    let admin = verify(&conn, &admin_token).unwrap();
    assert_eq!(run_messages(&conn, message_query(&MessageQueryFilter::default(), &admin)).len(), 2);
}

fn tool_args(phone_number: &str) -> ToolArguments {
    ToolArguments {
        phone_number: Some(phone_number.to_string()),
        max_age_minutes: None,
        sender: None,
        limit: None,
        query: None,
        message_id: None,
    }
}

#[test]
fn test_mcp_json_rpc_tools_and_permissions() {
    let conn = open();
    let (_device, device_token) = register_device(&conn, "Pixel 8 Test", "android");
    let tok1 = agent(&conn, "Agent 1", &["+15550000001"], false);
    forward(&conn, &device_token, "+15550000001", "SecureCorp", "Verification code: 994812", 0);
    let agent1 = verify(&conn, &tok1).unwrap();

    assert!(matches!(route_request("initialize", None, None), McpAction::Initialize));
    assert_eq!(protocol_version(), "2024-11-05");

    assert!(matches!(route_request("tools/list", None, None), McpAction::ListTools));
    let tools = get_tool_definitions();
    assert!(tools.iter().any(|t| t.name == "get_latest_otp"));
    assert!(tools.iter().any(|t| t.name == "list_allowed_numbers"));

    let name = match route_request("tools/call", Some("get_latest_otp".to_string()), None) {
        McpAction::CallTool(n) => n,
        _ => panic!("tools/call must route to the tool"),
    };
    let code = match plan_tool_call(&agent1, &name, tool_args("+15550000001")) {
        ToolPlan::LatestOtp(number, max_age) => run_otp(&conn, latest_otp_query(number.as_deref(), &agent1, max_age)),
        _ => panic!("a permitted number must be looked up, not refused"),
    };
    assert_eq!(code.as_deref(), Some("994812"));

    let denied = match plan_tool_call(&agent1, &name, tool_args("+15550000002")) {
        ToolPlan::Fail(m) => CallToolResult::error(m),
        _ => panic!("a number outside the allow-list must be refused"),
    };
    assert!(denied.is_error);
    assert!(denied.content[0].text.contains("Permission Denied"));
}

#[test]
fn sender_and_search_filters_match_literally() {
    let conn = open();
    let (admin, _) = create_token(
        &conn,
        CreateTokenRequest { name: "Admin".to_string(), allowed_numbers: vec![], can_read: true, can_delete: true, is_admin: true },
    );
    insert(&conn, sms("+1", "Bank_One", "Save 50% today", "d"), None);
    insert(&conn, sms("+1", "BankXOne", "Save 50 now", "d"), None);
    insert(&conn, sms("+1", "Shop", "Back\\slash", "d"), None);

    let underscore = MessageQueryFilter { sender: Some("_".to_string()), ..MessageQueryFilter::default() };
    assert_eq!(run_messages(&conn, message_query(&underscore, &admin)).len(), 1);
    let percent = MessageQueryFilter { search: Some("50%".to_string()), ..MessageQueryFilter::default() };
    assert_eq!(run_messages(&conn, message_query(&percent, &admin)).len(), 1);
    let backslash = MessageQueryFilter { search: Some("k\\s".to_string()), ..MessageQueryFilter::default() };
    assert_eq!(run_messages(&conn, message_query(&backslash, &admin)).len(), 1);
    let any_case = MessageQueryFilter { sender: Some("bank".to_string()), ..MessageQueryFilter::default() };
    assert_eq!(run_messages(&conn, message_query(&any_case, &admin)).len(), 2);
}
