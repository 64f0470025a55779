//! The MCP tools: their definitions, and the plan each call makes before storage is read.

use vstd::prelude::*;
use crate::db::models::{ApiToken, MessageQueryFilter};
use crate::mcp::protocol::ToolDefinition;
use crate::text::{i64_to_decimal, owned, push_all, str_eq};

verus! {

fn tool(name: &str, description: &str, input_schema: String) -> (t: ToolDefinition)
    ensures
        t.name@ == name@,
        t.description@ == description@,
        t.input_schema@ == input_schema@,
{
    ToolDefinition { name: owned(name), description: owned(description), input_schema }
}

/// The names of the tools, in the order they are listed.
pub open spec fn tool_names() -> Seq<Seq<char>> {
    seq![
        "list_allowed_numbers"@,
        "get_latest_otp"@,
        "get_latest_messages"@,
        "search_messages"@,
        "get_message_details"@,
    ]
}

/// The descriptions of the tools, in the same order.
pub open spec fn tool_descriptions() -> Seq<Seq<char>> {
    seq![
        "Lists the phone numbers this AI assistant is authorized to access, along with labels and received message counts."@,
        "Retrieves the most recent One-Time Password (OTP), 2FA verification code, or login PIN received on an authorized phone number within a given time window."@,
        "Retrieves the most recent incoming SMS messages for authorized phone numbers."@,
        "Searches through received SMS messages by keyword in the message body or sender."@,
        "Fetches full details of a specific SMS message by its unique message ID."@,
    ]
}

/// The JSON text of an object schema with the given properties and, if any, one required
/// property.
pub open spec fn schema_json(properties: Seq<char>, required: Option<Seq<char>>) -> Seq<char> {
    r#"{"type":"object","properties":"#@ + properties + match required {
        Some(n) => r#","required":[""#@ + n + r#""]"#@,
        None => seq![],
    } + r#","additionalProperties":false}"#@
}

/// The JSON text of each tool's input properties, in the same order as the names.
pub open spec fn tool_properties() -> Seq<Seq<char>> {
    seq![
        r#"{}"#@,
        r#"{"phone_number":{"type":"string","description":"Optional phone number (e.g. +15551234567). If omitted and you have access to only one number, it will be automatically selected."},"max_age_minutes":{"type":"integer","description":"Maximum age of the SMS message in minutes. Defaults to 10 minutes."}}"#@,
        r#"{"phone_number":{"type":"string","description":"Optional phone number filter. Must be an authorized number."},"sender":{"type":"string","description":"Optional filter by sender name or number (e.g. 'Google', 'WhatsApp', '+1800...')."},"limit":{"type":"integer","description":"Maximum number of messages to return (default 10, max 100)."}}"#@,
        r#"{"query":{"type":"string","description":"Search keyword or text to find in SMS messages."},"phone_number":{"type":"string","description":"Optional phone number filter (must be authorized)."},"limit":{"type":"integer","description":"Maximum number of messages to return (default 10)."}}"#@,
        r#"{"message_id":{"type":"string","description":"The unique message UUID."}}"#@
    ]
}

/// The property each tool requires, if any: `query` for `search_messages` and `message_id`
/// for `get_message_details`.
pub open spec fn tool_required() -> Seq<Option<Seq<char>>> {
    seq![None, None, None, Some("query"@), Some("message_id"@)]
}

/// The JSON text of each tool's input schema.
pub open spec fn tool_schemas() -> Seq<Seq<char>> {
    Seq::new(5, |i: int| schema_json(tool_properties()[i], tool_required()[i]))
}

fn schema(properties: &str, required: Option<&str>) -> (r: String)
    ensures
        r@ == schema_json(properties@, crate::db::query::opt_str_view(required)),
{
    let mut r = owned(r#"{"type":"object","properties":"#);
    push_all(&mut r, properties);
    if let Some(n) = required {
        push_all(&mut r, r#","required":[""#);
        push_all(&mut r, n);
        push_all(&mut r, r#""]"#);
    }
    push_all(&mut r, r#","additionalProperties":false}"#);
    r
}

/// The tools the server offers, with their descriptions and input schemas.
pub fn get_tool_definitions() -> (r: Vec<ToolDefinition>)
    ensures
        r@.len() == 5,
        forall|i: int| 0 <= i < 5 ==> {
            &&& #[trigger] r@[i].name@ == tool_names()[i]
            &&& r@[i].description@ == tool_descriptions()[i]
            &&& r@[i].input_schema@ == tool_schemas()[i]
        },
{
    let mut r: Vec<ToolDefinition> = Vec::new();
    r.push(tool(
        "list_allowed_numbers",
        "Lists the phone numbers this AI assistant is authorized to access, along with labels and received message counts.",
        schema(r#"{}"#, None),
    ));
    r.push(tool(
        "get_latest_otp",
        "Retrieves the most recent One-Time Password (OTP), 2FA verification code, or login PIN received on an authorized phone number within a given time window.",
        schema(r#"{"phone_number":{"type":"string","description":"Optional phone number (e.g. +15551234567). If omitted and you have access to only one number, it will be automatically selected."},"max_age_minutes":{"type":"integer","description":"Maximum age of the SMS message in minutes. Defaults to 10 minutes."}}"#, None),
    ));
    r.push(tool(
        "get_latest_messages",
        "Retrieves the most recent incoming SMS messages for authorized phone numbers.",
        schema(r#"{"phone_number":{"type":"string","description":"Optional phone number filter. Must be an authorized number."},"sender":{"type":"string","description":"Optional filter by sender name or number (e.g. 'Google', 'WhatsApp', '+1800...')."},"limit":{"type":"integer","description":"Maximum number of messages to return (default 10, max 100)."}}"#, None),
    ));
    r.push(tool(
        "search_messages",
        "Searches through received SMS messages by keyword in the message body or sender.",
        schema(r#"{"query":{"type":"string","description":"Search keyword or text to find in SMS messages."},"phone_number":{"type":"string","description":"Optional phone number filter (must be authorized)."},"limit":{"type":"integer","description":"Maximum number of messages to return (default 10)."}}"#, Some("query")),
    ));
    r.push(tool(
        "get_message_details",
        "Fetches full details of a specific SMS message by its unique message ID.",
        schema(r#"{"message_id":{"type":"string","description":"The unique message UUID."}}"#, Some("message_id")),
    ));
    r
}

/// The arguments of a tool call that the tools read: each is the argument of that name when
/// it is a string (or, for the numbers, an integer).
#[derive(Debug, Clone)]
pub struct ToolArguments {
    pub phone_number: Option<String>,
    pub max_age_minutes: Option<i64>,
    pub sender: Option<String>,
    pub limit: Option<i64>,
    pub query: Option<String>,
    pub message_id: Option<String>,
}

/// What a tool call does.
#[derive(Debug, Clone)]
pub enum ToolPlan {
    /// List the numbers the token may access.
    ListNumbers,
    /// Find the latest code, for the number if given, received within `max_age` minutes.
    LatestOtp(Option<String>, i64),
    /// List messages with this filter.
    QueryMessages(MessageQueryFilter),
    /// Fetch this message.
    MessageDetails(String),
    /// Answer with this error text.
    Fail(String),
}

/// The refusal for a number the token may not access.
pub open spec fn permission_denied(token_name: Seq<char>, number: Seq<char>) -> Seq<char> {
    "Permission Denied: Token '"@ + token_name + "' is not authorized to access phone number "@ + number + "."@
}

fn permission_denied_text(token_name: &str, number: &str) -> (r: String)
    ensures
        r@ == permission_denied(token_name@, number@),
{
    let mut r = owned("Permission Denied: Token '");
    push_all(&mut r, token_name);
    push_all(&mut r, "' is not authorized to access phone number ");
    push_all(&mut r, number);
    push_all(&mut r, ".");
    r
}

/// Whether the optional number is one the token may not access.
fn refused(token: &ApiToken, number: &Option<String>) -> (r: bool)
    ensures
        r == crate::db::query::number_refused(*token, crate::db::query::opt_view(*number)),
{
    match number {
        Some(n) => !token.can_access_number(n.as_str()),
        None => false,
    }
}

pub open spec fn or_default(v: Option<i64>, d: i64) -> i64 {
    match v {
        Some(x) => x,
        None => d,
    }
}

/// The number of messages `get_latest_messages` asks for: the requested limit (10 when
/// absent) clamped to 1..=100, as its schema promises.
pub open spec fn recent_limit(v: Option<i64>) -> i64 {
    let l = or_default(v, 10);
    if l < 1 {
        1
    } else if l > 100 {
        100
    } else {
        l
    }
}

/// A plan as plain data.
pub enum Plan {
    ListNumbers,
    LatestOtp(Option<Seq<char>>, i64),
    QueryMessages(MessageQueryFilter),
    MessageDetails(Seq<char>),
    Fail(Seq<char>),
}

impl ToolPlan {
    pub open spec fn plan(&self) -> Plan {
        match self {
            ToolPlan::ListNumbers => Plan::ListNumbers,
            ToolPlan::LatestOtp(n, a) => Plan::LatestOtp(crate::db::query::opt_view(*n), *a),
            ToolPlan::QueryMessages(f) => Plan::QueryMessages(*f),
            ToolPlan::MessageDetails(i) => Plan::MessageDetails(i@),
            ToolPlan::Fail(m) => Plan::Fail(m@),
        }
    }
}

/// The filter a tool lists messages with: for `number`, by `sender` and `search`, at most
/// `limit` rows, no offset or time bound.
pub open spec fn tool_filter(
    number: Option<String>,
    sender: Option<String>,
    search: Option<String>,
    limit: i64,
) -> MessageQueryFilter {
    MessageQueryFilter { number, sender, search, limit: Some(limit), offset: None, since: None }
}

/// The refusal of a tool call naming a number the token may not access, if it does.
pub open spec fn refusal(token: ApiToken, number: Option<String>) -> Option<Seq<char>> {
    if crate::db::query::number_refused(token, crate::db::query::opt_view(number)) {
        Some(permission_denied(token.name@, number->0@))
    } else {
        None
    }
}

/// The plan of a tool call. Any phone number given must be one the token may access; a
/// search needs its query and a detail request its message id; limits default to 10 (and
/// the latest-messages limit is kept within 1..=100) and code ages to 10 minutes; any other
/// tool name is unknown.
pub open spec fn plan_of(token: ApiToken, name: Seq<char>, args: ToolArguments) -> Plan {
    if name == "list_allowed_numbers"@ {
        Plan::ListNumbers
    } else if name == "get_latest_otp"@ {
        match refusal(token, args.phone_number) {
            Some(m) => Plan::Fail(m),
            None => Plan::LatestOtp(crate::db::query::opt_view(args.phone_number), or_default(args.max_age_minutes, 10)),
        }
    } else if name == "get_latest_messages"@ {
        match refusal(token, args.phone_number) {
            Some(m) => Plan::Fail(m),
            None => Plan::QueryMessages(tool_filter(args.phone_number, args.sender, None, recent_limit(args.limit))),
        }
    } else if name == "search_messages"@ {
        if args.query is None {
            Plan::Fail("Missing required parameter 'query'"@)
        } else {
            match refusal(token, args.phone_number) {
                Some(m) => Plan::Fail(m),
                None => Plan::QueryMessages(tool_filter(args.phone_number, None, args.query, or_default(args.limit, 10))),
            }
        }
    } else if name == "get_message_details"@ {
        match args.message_id {
            Some(id) => Plan::MessageDetails(id@),
            None => Plan::Fail("Missing required parameter 'message_id'"@),
        }
    } else {
        Plan::Fail("Unknown tool: "@ + name)
    }
}

/// Plans a tool call (see `plan_of`).
pub fn plan_tool_call(token: &ApiToken, name: &str, args: ToolArguments) -> (r: ToolPlan)
    ensures
        r.plan() == plan_of(*token, name@, args),
        r matches ToolPlan::QueryMessages(f) ==> f.number == args.phone_number,
{
    if str_eq(name, "list_allowed_numbers") {
        ToolPlan::ListNumbers
    } else if str_eq(name, "get_latest_otp") {
        let max_age: i64 = match args.max_age_minutes {
            Some(m) => m,
            None => 10,
        };
        if refused(token, &args.phone_number) {
            return ToolPlan::Fail(permission_denied_text(token.name.as_str(), args.phone_number.as_ref().unwrap().as_str()));
        }
        ToolPlan::LatestOtp(args.phone_number, max_age)
    } else if str_eq(name, "get_latest_messages") {
        let requested: i64 = match args.limit {
            Some(l) => l,
            None => 10,
        };
        let limit: i64 = if requested < 1 {
            1
        } else if requested > 100 {
            100
        } else {
            requested
        };
        if refused(token, &args.phone_number) {
            return ToolPlan::Fail(permission_denied_text(token.name.as_str(), args.phone_number.as_ref().unwrap().as_str()));
        }
        ToolPlan::QueryMessages(MessageQueryFilter {
            number: args.phone_number,
            sender: args.sender,
            search: None,
            limit: Some(limit),
            offset: None,
            since: None,
        })
    } else if str_eq(name, "search_messages") {
        let query = match args.query {
            Some(q) => q,
            None => return ToolPlan::Fail(owned("Missing required parameter 'query'")),
        };
        let limit: i64 = match args.limit {
            Some(l) => l,
            None => 10,
        };
        if refused(token, &args.phone_number) {
            return ToolPlan::Fail(permission_denied_text(token.name.as_str(), args.phone_number.as_ref().unwrap().as_str()));
        }
        ToolPlan::QueryMessages(MessageQueryFilter {
            number: args.phone_number,
            sender: None,
            search: Some(query),
            limit: Some(limit),
            offset: None,
            since: None,
        })
    } else if str_eq(name, "get_message_details") {
        match args.message_id {
            Some(id) => ToolPlan::MessageDetails(id),
            None => ToolPlan::Fail(owned("Missing required parameter 'message_id'")),
        }
    } else {
        let mut m = owned("Unknown tool: ");
        push_all(&mut m, name);
        ToolPlan::Fail(m)
    }
}

/// The text of the answer when no recent code was found.
pub fn no_otp_message(max_age: i64) -> (r: String)
    ensures
        r@ == "No OTP verification code found within the last "@ + crate::text::decimal(max_age as int)
            + " minutes for authorized numbers."@,
{
    let mut r = owned("No OTP verification code found within the last ");
    let n = i64_to_decimal(max_age);
    push_all(&mut r, n.as_str());
    push_all(&mut r, " minutes for authorized numbers.");
    r
}

/// The error text for a message that is absent or hidden from the token.
pub fn message_not_found_text(message_id: &str) -> (r: String)
    ensures
        r@ == "Message '"@ + message_id@ + "' not found or you are not authorized to view it."@,
{
    let mut r = owned("Message '");
    push_all(&mut r, message_id);
    push_all(&mut r, "' not found or you are not authorized to view it.");
    r
}

/// The error text for a storage failure.
pub fn database_error_text(detail: &str) -> (r: String)
    ensures
        r@ == "Database error: "@ + detail@,
{
    let mut r = owned("Database error: ");
    push_all(&mut r, detail);
    r
}

/// A tool call never plans a read of a number that the token may not access.
pub proof fn law_tool_plans_respect_number_access(token: ApiToken, name: Seq<char>, args: ToolArguments)
    ensures
        plan_of(token, name, args) matches Plan::LatestOtp(Some(n), _) ==> token.may_access(n),
        plan_of(token, name, args) matches Plan::QueryMessages(f) ==> (f.number matches Some(n) ==> token.may_access(n@)),
{
}


/// Every listed tool is dispatched: calling a tool by a name that `get_tool_definitions`
/// lists is never answered as an unknown tool, and no two listed tools share a name.
pub proof fn law_listed_tools_are_dispatched(token: ApiToken, args: ToolArguments, i: int)
    requires
        0 <= i < 5,
    ensures
        !(plan_of(token, tool_names()[i], args) matches Plan::Fail(m) && m == "Unknown tool: "@ + tool_names()[i]),
        forall|j: int| 0 <= j < 5 && j != i ==> tool_names()[j] != tool_names()[i],
{
    reveal_strlit("Unknown tool: ");
    reveal_strlit("Permission Denied: Token '");
    reveal_strlit("Missing required parameter 'query'");
    reveal_strlit("Missing required parameter 'message_id'");
    reveal_strlit("list_allowed_numbers");
    reveal_strlit("get_latest_otp");
    reveal_strlit("get_latest_messages");
    reveal_strlit("search_messages");
    reveal_strlit("get_message_details");
    let name = tool_names()[i];
    let unknown = "Unknown tool: "@ + name;
    assert(unknown[0] == 'U');
    match plan_of(token, name, args) {
        Plan::Fail(m) => {
            assert(m[0] != 'U');
        },
        _ => {},
    }
    assert forall|j: int| 0 <= j < 5 && j != i implies tool_names()[j] != tool_names()[i] by {
        if tool_names()[j].len() == tool_names()[i].len() {
            assert(tool_names()[j][4] != tool_names()[i][4]);
        }
    }
}


/// What each tool call plans, in terms of its arguments: a call naming a number the token
/// may access (or none) reads exactly that number and the other filters it was given; the
/// latest-messages limit is the one asked for when it lies in 1..=100 (10 when absent, and
/// never outside 1..=100); a search with a query searches for it; a detail request fetches
/// the named message; and a call naming a number the token may not access is refused.
pub proof fn law_tool_plans_follow_the_arguments(token: ApiToken, args: ToolArguments)
    ensures
        !crate::db::query::number_refused(token, crate::db::query::opt_view(args.phone_number)) ==> {
            &&& plan_of(token, "get_latest_messages"@, args) matches Plan::QueryMessages(f)
            &&& f.number == args.phone_number
            &&& f.sender == args.sender
            &&& f.search is None && f.offset is None && f.since is None
            &&& f.limit matches Some(l) && 1 <= l <= 100
            &&& (args.limit is Some && 1 <= args.limit->0 <= 100 ==> f.limit == args.limit)
            &&& (args.limit is None ==> f.limit == Some(10i64))
        },
        !crate::db::query::number_refused(token, crate::db::query::opt_view(args.phone_number))
            && args.query is Some ==> {
            &&& plan_of(token, "search_messages"@, args) matches Plan::QueryMessages(f)
            &&& f.number == args.phone_number
            &&& f.search == args.query
            &&& f.sender is None && f.offset is None && f.since is None
            &&& f.limit == Some(if args.limit is Some { args.limit->0 } else { 10i64 })
        },
        !crate::db::query::number_refused(token, crate::db::query::opt_view(args.phone_number)) ==>
            plan_of(token, "get_latest_otp"@, args) == Plan::LatestOtp(
                crate::db::query::opt_view(args.phone_number),
                if args.max_age_minutes is Some { args.max_age_minutes->0 } else { 10i64 },
            ),
        crate::db::query::number_refused(token, crate::db::query::opt_view(args.phone_number)) ==> {
            &&& plan_of(token, "get_latest_otp"@, args) is Fail
            &&& plan_of(token, "get_latest_messages"@, args) is Fail
            &&& plan_of(token, "search_messages"@, args) is Fail
        },
        args.query is None ==> plan_of(token, "search_messages"@, args) is Fail,
        args.message_id matches Some(id) ==> plan_of(token, "get_message_details"@, args) == Plan::MessageDetails(id@),
        args.message_id is None ==> plan_of(token, "get_message_details"@, args) is Fail,
        plan_of(token, "list_allowed_numbers"@, args) == Plan::ListNumbers,
{
    reveal_strlit("list_allowed_numbers");
    reveal_strlit("get_latest_otp");
    reveal_strlit("get_latest_messages");
    reveal_strlit("search_messages");
    reveal_strlit("get_message_details");
    assert("get_latest_otp"@[0] != "list_allowed_numbers"@[0]);
    assert("get_latest_otp"@ != "list_allowed_numbers"@);
    assert("get_latest_messages"@[0] != "list_allowed_numbers"@[0]);
    assert("get_latest_messages"@ != "list_allowed_numbers"@);
    assert("get_latest_messages"@[11] != "get_latest_otp"@[11]);
    assert("get_latest_messages"@ != "get_latest_otp"@);
    assert("search_messages"@ != "list_allowed_numbers"@);
    assert("search_messages"@ != "get_latest_otp"@);
    assert("search_messages"@ != "get_latest_messages"@);
    assert("get_message_details"@ != "list_allowed_numbers"@);
    assert("get_message_details"@[4] != "get_latest_otp"@[4]);
    assert("get_message_details"@ != "get_latest_otp"@);
    assert("get_message_details"@[4] != "get_latest_messages"@[4]);
    assert("get_message_details"@ != "get_latest_messages"@);
    assert("get_message_details"@ != "search_messages"@);
}

} // verus!
