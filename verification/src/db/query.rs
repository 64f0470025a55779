//! The SQL statements that read messages on behalf of a token. Every statement confines
//! its rows to the numbers the token may access; a request that could only return
//! forbidden rows is answered without touching the database.

use vstd::prelude::*;
use crate::db::models::{ApiToken, MessageQueryFilter};
use crate::text::{eq_ignore_ascii_case, push_all, str_eq};

verus! {

/// A value bound to a `?` placeholder.
#[derive(Debug, Clone)]
pub enum SqlParam {
    Text(String),
    Integer(i64),
}

/// A bound value as plain data.
pub enum ParamValue {
    Text(Seq<char>),
    Integer(i64),
}

impl SqlParam {
    pub open spec fn value(&self) -> ParamValue {
        match self {
            SqlParam::Text(s) => ParamValue::Text(s@),
            SqlParam::Integer(i) => ParamValue::Integer(*i),
        }
    }
}

/// An SQL statement with its positional parameters.
#[derive(Debug, Clone)]
pub struct SqlQuery {
    pub sql: String,
    pub params: Vec<SqlParam>,
}

impl SqlQuery {
    pub open spec fn param_values(&self) -> Seq<ParamValue> {
        self.params@.map_values(|p: SqlParam| p.value())
    }
}

/// Whether the token reads every number, so that no recipient restriction is needed:
/// it is an admin token or its allow-list holds a wildcard entry.
pub open spec fn unrestricted(token: ApiToken) -> bool {
    token.is_admin || exists|i: int|
        0 <= i < token.allowed().len() && #[trigger] crate::db::models::is_wildcard_entry(token.allowed()[i])
}

/// `n` comma-separated placeholders.
pub open spec fn placeholders(n: nat) -> Seq<char>
    decreases n,
{
    if n == 0 {
        seq![]
    } else if n == 1 {
        seq!['?']
    } else {
        placeholders((n - 1) as nat) + seq![',', '?']
    }
}

/// The clause that confines rows to the token's allow-list.
pub open spec fn restriction_sql(token: ApiToken) -> Seq<char> {
    if unrestricted(token) {
        seq![]
    } else {
        " AND recipient_number IN ("@ + placeholders(token.allowed().len()) + ")"@
    }
}

/// The parameters of the restriction clause: the allow-list, in order.
pub open spec fn restriction_params(token: ApiToken) -> Seq<ParamValue> {
    if unrestricted(token) {
        seq![]
    } else {
        token.allowed().map_values(|n: Seq<char>| ParamValue::Text(n))
    }
}

/// Whether a request for `number` (if any) is refused outright.
pub open spec fn number_refused(token: ApiToken, number: Option<Seq<char>>) -> bool {
    match number {
        Some(n) => !token.may_access(n),
        None => false,
    }
}

/// Whether a token with neither admin rights nor a wildcard has an empty allow-list.
pub open spec fn nothing_allowed(token: ApiToken) -> bool {
    !unrestricted(token) && token.allowed().len() == 0
}

pub open spec fn opt_view(o: Option<String>) -> Option<Seq<char>> {
    match o {
        Some(s) => Some(s@),
        None => None,
    }
}

/// Whether LIKE gives `c` a meaning of its own: the wildcards `%` and `_`, and the escape
/// character `\`.
pub open spec fn is_like_special(c: char) -> bool {
    c == '%' || c == '_' || c == '\\'
}

/// `s` with each LIKE special character preceded by the escape character `\`, so that
/// under `ESCAPE '\'` the pattern matches `s` literally.
pub open spec fn like_escape(s: Seq<char>) -> Seq<char>
    decreases s.len(),
{
    if s.len() == 0 {
        seq![]
    } else {
        like_escape(s.drop_last()) + if is_like_special(s.last()) {
            seq!['\\', s.last()]
        } else {
            seq![s.last()]
        }
    }
}

/// `%s%` with `s` escaped: the LIKE pattern (under `ESCAPE '\'`) for "contains `s`".
pub open spec fn like_contains(s: Seq<char>) -> Seq<char> {
    seq!['%'] + like_escape(s) + seq!['%']
}

/// The row limit: the requested one (50 when absent) clamped to 1..=500.
pub open spec fn effective_limit(limit: Option<i64>) -> i64 {
    let l = match limit {
        Some(l) => l,
        None => 50,
    };
    if l < 1 {
        1
    } else if l > 500 {
        500
    } else {
        l
    }
}

pub open spec fn message_select_sql() -> Seq<char> {
    "SELECT id, recipient_number, sender, body, received_at, device_id, sim_slot, extracted_code, raw_metadata, is_read FROM messages WHERE 1=1"@
}

/// The text of the message listing statement.
pub open spec fn message_query_sql(filter: MessageQueryFilter, token: ApiToken) -> Seq<char> {
    message_select_sql() + restriction_sql(token)
        + (if filter.number is Some { " AND recipient_number = ?"@ } else { seq![] })
        + (if filter.sender is Some { " AND sender LIKE ? ESCAPE '\\'"@ } else { seq![] })
        + (if filter.search is Some { " AND (body LIKE ? ESCAPE '\\' OR sender LIKE ? ESCAPE '\\')"@ } else { seq![] })
        + (if filter.since is Some { " AND received_at >= ?"@ } else { seq![] })
        + " ORDER BY received_at DESC"@ + " LIMIT ?"@
        + (if filter.offset is Some { " OFFSET ?"@ } else { seq![] })
}

/// The parameters of the message listing statement.
pub open spec fn message_query_params(filter: MessageQueryFilter, token: ApiToken) -> Seq<ParamValue> {
    restriction_params(token)
        + (match filter.number { Some(n) => seq![ParamValue::Text(n@)], None => seq![] })
        + (match filter.sender { Some(s) => seq![ParamValue::Text(like_contains(s@))], None => seq![] })
        + (match filter.search {
            Some(s) => seq![ParamValue::Text(like_contains(s@)), ParamValue::Text(like_contains(s@))],
            None => seq![],
        })
        + (match filter.since { Some(s) => seq![ParamValue::Text(s@)], None => seq![] })
        + seq![ParamValue::Integer(effective_limit(filter.limit))]
        + (match filter.offset { Some(o) => seq![ParamValue::Integer(o)], None => seq![] })
}

/// Whether the listing statement's recipient conditions admit a row for `recipient`:
/// the allow-list restriction (when there is one) and the requested number (when given).
pub open spec fn message_query_admits(filter: MessageQueryFilter, token: ApiToken, recipient: Seq<char>) -> bool {
    &&& (unrestricted(token) || token.allowed().contains(recipient))
    &&& (match filter.number { Some(n) => recipient == n@, None => true })
}

/// Whether the token's allow-list holds a wildcard entry or it is an admin token.
fn is_unrestricted(token: &ApiToken) -> (r: bool)
    ensures
        r == unrestricted(*token),
{
    if token.is_admin {
        return true;
    }
    let mut i: usize = 0;
    while i < token.allowed_numbers.len()
        invariant
            i <= token.allowed_numbers@.len(),
            !token.is_admin,
            forall|j: int| 0 <= j < i ==> !#[trigger] crate::db::models::is_wildcard_entry(token.allowed()[j]),
        decreases token.allowed_numbers@.len() - i,
    {
        let n: &str = token.allowed_numbers[i].as_str();
        assert(token.allowed()[i as int] == n@);
        if str_eq(n, "*") || eq_ignore_ascii_case(n, "ALL") {
            assert(crate::db::models::is_wildcard_entry(token.allowed()[i as int]));
            return true;
        }
        i = i + 1;
    }
    false
}

/// Appends the allow-list restriction and its parameters.
fn push_restriction(sql: &mut String, params: &mut Vec<SqlParam>, token: &ApiToken)
    requires
        !unrestricted(*token),
    ensures
        final(sql)@ == old(sql)@ + restriction_sql(*token),
        final(params)@.map_values(|p: SqlParam| p.value())
            == old(params)@.map_values(|p: SqlParam| p.value()) + restriction_params(*token),
{
    let ghost sql0 = sql@;
    let ghost p0 = params@.map_values(|p: SqlParam| p.value());
    push_all(sql, " AND recipient_number IN (");
    let ghost sql1 = sql@;
    let n = token.allowed_numbers.len();
    let mut i: usize = 0;
    while i < n
        invariant
            n == token.allowed_numbers@.len(),
            i <= n,
            sql@ == sql1 + placeholders(i as nat),
            params@.map_values(|p: SqlParam| p.value())
                == p0 + token.allowed().take(i as int).map_values(|m: Seq<char>| ParamValue::Text(m)),
        decreases n - i,
    {
        if i == 0 {
            sql.push('?');
            assert(placeholders(1) == seq!['?']);
            assert(sql@ =~= sql1 + placeholders(1));
        } else {
            sql.push(',');
            sql.push('?');
            assert(sql@ =~= sql1 + placeholders((i + 1) as nat));
        }
        let ghost before = params@;
        params.push(SqlParam::Text(token.allowed_numbers[i].clone()));
        assert(params@ =~= before.push(SqlParam::Text(token.allowed_numbers@[i as int])));
        assert(token.allowed().take(i + 1 as int) =~= token.allowed().take(i as int).push(token.allowed()[i as int]));
        assert(params@.map_values(|p: SqlParam| p.value()) =~= before.map_values(|p: SqlParam| p.value()).push(
            ParamValue::Text(token.allowed()[i as int])));
        assert(token.allowed().take(i + 1 as int).map_values(|m: Seq<char>| ParamValue::Text(m))
            =~= token.allowed().take(i as int).map_values(|m: Seq<char>| ParamValue::Text(m)).push(
            ParamValue::Text(token.allowed()[i as int])));
        i = i + 1;
    }
    push_all(sql, ")");
    assert(token.allowed().take(n as int) =~= token.allowed());
}

} // verus!

verus! {

/// The LIKE pattern for "contains `s`", with `s` escaped.
fn like_pattern(s: &str) -> (r: String)
    ensures
        r@ == like_contains(s@),
{
    let cs = crate::text::chars_of(s);
    let mut r = String::new();
    r.push('%');
    let mut i: usize = 0;
    while i < cs.len()
        invariant
            i <= cs@.len(),
            cs@ == s@,
            r@ == seq!['%'] + like_escape(cs@.take(i as int)),
        decreases cs@.len() - i,
    {
        let c = cs[i];
        assert(cs@.take(i + 1 as int).drop_last() =~= cs@.take(i as int));
        if c == '%' || c == '_' || c == '\\' {
            r.push('\\');
            r.push(c);
        } else {
            r.push(c);
        }
        i = i + 1;
        assert(r@ =~= seq!['%'] + like_escape(cs@.take(i as int)));
    }
    assert(cs@.take(cs@.len() as int) =~= cs@);
    r.push('%');
    r
}

/// The statement that lists the messages a token may read, filtered as requested.
/// It is `None`, and nothing need be read, when a specific number is requested that the
/// token may not access, or when the token has an empty allow-list and no wildcard.
pub fn message_query(filter: &MessageQueryFilter, token: &ApiToken) -> (r: Option<SqlQuery>)
    ensures
        r is None <==> (number_refused(*token, opt_view(filter.number)) || nothing_allowed(*token)),
        r matches Some(q) ==> q.sql@ == message_query_sql(*filter, *token)
            && q.param_values() == message_query_params(*filter, *token),
{
    if let Some(num) = &filter.number {
        if !token.can_access_number(num.as_str()) {
            return None;
        }
    }
    let mut sql = String::new();
    push_all(&mut sql, "SELECT id, recipient_number, sender, body, received_at, device_id, sim_slot, extracted_code, raw_metadata, is_read FROM messages WHERE 1=1");
    let mut params: Vec<SqlParam> = Vec::new();
    if !is_unrestricted(token) {
        if token.allowed_numbers.len() == 0 {
            return None;
        }
        push_restriction(&mut sql, &mut params, token);
    }
    assert(params@.map_values(|p: SqlParam| p.value()) =~= restriction_params(*token));
    let ghost p1 = params@.map_values(|p: SqlParam| p.value());
    if let Some(num) = &filter.number {
        push_all(&mut sql, " AND recipient_number = ?");
        params.push(SqlParam::Text(num.clone()));
    }
    let ghost p2 = params@.map_values(|p: SqlParam| p.value());
    assert(p2 =~= p1 + (match filter.number { Some(n) => seq![ParamValue::Text(n@)], None => seq![] }));
    if let Some(snd) = &filter.sender {
        push_all(&mut sql, " AND sender LIKE ? ESCAPE '\\'");
        params.push(SqlParam::Text(like_pattern(snd.as_str())));
    }
    let ghost p3 = params@.map_values(|p: SqlParam| p.value());
    assert(p3 =~= p2 + (match filter.sender { Some(s) => seq![ParamValue::Text(like_contains(s@))], None => seq![] }));
    if let Some(s) = &filter.search {
        push_all(&mut sql, " AND (body LIKE ? ESCAPE '\\' OR sender LIKE ? ESCAPE '\\')");
        params.push(SqlParam::Text(like_pattern(s.as_str())));
        params.push(SqlParam::Text(like_pattern(s.as_str())));
    }
    let ghost p4 = params@.map_values(|p: SqlParam| p.value());
    assert(p4 =~= p3 + (match filter.search {
        Some(s) => seq![ParamValue::Text(like_contains(s@)), ParamValue::Text(like_contains(s@))],
        None => seq![],
    }));
    if let Some(since) = &filter.since {
        push_all(&mut sql, " AND received_at >= ?");
        params.push(SqlParam::Text(since.clone()));
    }
    let ghost p5 = params@.map_values(|p: SqlParam| p.value());
    assert(p5 =~= p4 + (match filter.since { Some(s) => seq![ParamValue::Text(s@)], None => seq![] }));
    push_all(&mut sql, " ORDER BY received_at DESC");
    let requested: i64 = match filter.limit {
        Some(l) => l,
        None => 50,
    };
    let limit: i64 = if requested < 1 {
        1
    } else if requested > 500 {
        500
    } else {
        requested
    };
    push_all(&mut sql, " LIMIT ?");
    params.push(SqlParam::Integer(limit));
    let ghost p6 = params@.map_values(|p: SqlParam| p.value());
    assert(p6 =~= p5 + seq![ParamValue::Integer(effective_limit(filter.limit))]);
    if let Some(offset) = filter.offset {
        push_all(&mut sql, " OFFSET ?");
        params.push(SqlParam::Integer(offset));
    }
    let ghost p7 = params@.map_values(|p: SqlParam| p.value());
    assert(p7 =~= p6 + (match filter.offset { Some(o) => seq![ParamValue::Integer(o)], None => seq![] }));
    assert(sql@ =~= message_query_sql(*filter, *token));
    Some(SqlQuery { sql, params })
}

/// A listing statement only ever admits rows for numbers the token may access: a row whose
/// recipient passes the statement's recipient conditions is one the token may read.
pub proof fn law_message_query_admits_only_accessible(
    filter: MessageQueryFilter,
    token: ApiToken,
    recipient: Seq<char>,
)
    requires
        message_query_admits(filter, token, recipient),
    ensures
        token.may_access(recipient),
{
    if !token.is_admin {
        if unrestricted(token) {
            let i = choose|i: int|
                0 <= i < token.allowed().len() && #[trigger] crate::db::models::is_wildcard_entry(token.allowed()[i]);
            crate::db::models::law_wildcard_accesses_every_number(token, i, recipient);
        } else {
            crate::db::models::law_listed_number_is_accessible(token, recipient);
        }
    }
}

} // verus!

verus! {

pub open spec fn otp_select_sql() -> Seq<char> {
    "SELECT id, recipient_number, sender, body, received_at, extracted_code FROM messages WHERE extracted_code IS NOT NULL AND received_at >= ?"@
}

/// The text of the latest-code statement.
pub open spec fn latest_otp_sql(requested: Option<Seq<char>>, token: ApiToken) -> Seq<char> {
    otp_select_sql() + restriction_sql(token)
        + (if requested is Some { " AND recipient_number = ?"@ } else { seq![] })
        + " ORDER BY received_at DESC LIMIT 1"@
}

/// The parameters of the latest-code statement, after the cutoff time.
pub open spec fn latest_otp_params(requested: Option<Seq<char>>, token: ApiToken, cutoff: Seq<char>) -> Seq<ParamValue> {
    seq![ParamValue::Text(cutoff)] + restriction_params(token)
        + (match requested { Some(n) => seq![ParamValue::Text(n)], None => seq![] })
}

/// Whether the latest-code statement's recipient conditions admit a row for `recipient`.
pub open spec fn latest_otp_admits(requested: Option<Seq<char>>, token: ApiToken, recipient: Seq<char>) -> bool {
    &&& (unrestricted(token) || token.allowed().contains(recipient))
    &&& (match requested { Some(n) => recipient == n, None => true })
}

pub open spec fn opt_str_view(o: Option<&str>) -> Option<Seq<char>> {
    match o {
        Some(s) => Some(s@),
        None => None,
    }
}

/// The statement that finds the most recent message with an extracted code received at or
/// after `cutoff`, among the numbers the token may access (and only `requested`, if given).
/// It is `None` when `requested` is a number the token may not access, or when the token
/// has an empty allow-list and no wildcard.
pub fn latest_otp_statement(requested: Option<&str>, token: &ApiToken, cutoff: &str) -> (r: Option<SqlQuery>)
    ensures
        r is None <==> (number_refused(*token, opt_str_view(requested)) || nothing_allowed(*token)),
        r matches Some(q) ==> q.sql@ == latest_otp_sql(opt_str_view(requested), *token)
            && q.param_values() == latest_otp_params(opt_str_view(requested), *token, cutoff@),
{
    if let Some(num) = requested {
        if !token.can_access_number(num) {
            return None;
        }
    }
    build_latest_otp_statement(requested, token, cutoff)
}

fn build_latest_otp_statement(requested: Option<&str>, token: &ApiToken, cutoff: &str) -> (r: Option<SqlQuery>)
    ensures
        r is None <==> nothing_allowed(*token),
        r matches Some(q) ==> q.sql@ == latest_otp_sql(opt_str_view(requested), *token)
            && q.param_values() == latest_otp_params(opt_str_view(requested), *token, cutoff@),
{
    let mut sql = String::new();
    push_all(&mut sql, "SELECT id, recipient_number, sender, body, received_at, extracted_code FROM messages WHERE extracted_code IS NOT NULL AND received_at >= ?");
    let mut params: Vec<SqlParam> = Vec::new();
    params.push(SqlParam::Text(crate::text::string_from_chars(crate::text::chars_of(cutoff).as_slice())));
    assert(params@.map_values(|p: SqlParam| p.value()) =~= seq![ParamValue::Text(cutoff@)]);
    if !is_unrestricted(token) {
        if token.allowed_numbers.len() == 0 {
            return None;
        }
        push_restriction(&mut sql, &mut params, token);
    }
    let ghost p1 = params@.map_values(|p: SqlParam| p.value());
    assert(p1 =~= seq![ParamValue::Text(cutoff@)] + restriction_params(*token));
    if let Some(num) = requested {
        push_all(&mut sql, " AND recipient_number = ?");
        params.push(SqlParam::Text(crate::text::string_from_chars(crate::text::chars_of(num).as_slice())));
    }
    let ghost p2 = params@.map_values(|p: SqlParam| p.value());
    assert(p2 =~= p1 + (match opt_str_view(requested) { Some(n) => seq![ParamValue::Text(n)], None => seq![] }));
    push_all(&mut sql, " ORDER BY received_at DESC LIMIT 1");
    assert(sql@ =~= latest_otp_sql(opt_str_view(requested), *token));
    Some(SqlQuery { sql, params })
}

/// A statement as plain data: its text and parameters.
pub open spec fn query_view(r: Option<SqlQuery>) -> Option<(Seq<char>, Seq<ParamValue>)> {
    match r {
        Some(q) => Some((q.sql@, q.param_values())),
        None => None,
    }
}

/// The latest-code statement for codes received within `max_age_minutes` minutes before the
/// instant `secs` seconds and `nanos` nanoseconds after the epoch: none when the number is
/// refused or nothing is allowed (as for `latest_otp_statement`), or when the cutoff instant
/// cannot be represented; otherwise the statement with that cutoff's RFC 3339 text.
pub open spec fn latest_otp_at(
    requested: Option<Seq<char>>,
    token: ApiToken,
    max_age_minutes: i64,
    secs: i64,
    nanos: u32,
) -> Option<(Seq<char>, Seq<ParamValue>)> {
    if number_refused(token, requested) || nothing_allowed(token) {
        None
    } else {
        match crate::db::clock::cutoff_text(secs, nanos, max_age_minutes) {
            Some(c) => Some((latest_otp_sql(requested, token), latest_otp_params(requested, token, c))),
            None => None,
        }
    }
}

/// The latest-code statement for codes received within the last `max_age_minutes` minutes,
/// counted back from the given instant (see `latest_otp_at`).
pub fn latest_otp_query_at(
    requested: Option<&str>,
    token: &ApiToken,
    max_age_minutes: i64,
    secs: i64,
    nanos: u32,
) -> (r: Option<SqlQuery>)
    ensures
        query_view(r) == latest_otp_at(opt_str_view(requested), *token, max_age_minutes, secs, nanos),
{
    if let Some(num) = requested {
        if !token.can_access_number(num) {
            return None;
        }
    }
    let cutoff = match crate::db::clock::minutes_before_rfc3339(secs, nanos, max_age_minutes) {
        Some(c) => c,
        None => return None,
    };
    build_latest_otp_statement(requested, token, cutoff.as_str())
}

/// The latest-code statement for codes received within the last `max_age_minutes` minutes.
/// The clock is read only once the requested number has been found accessible; the
/// statement is the one `latest_otp_query_at` builds for the instant read, which is a
/// non-negative number of seconds (and less than a second of nanoseconds) after the epoch.
/// An age that reaches beyond the instants chrono represents gives no statement.
pub fn latest_otp_query(requested: Option<&str>, token: &ApiToken, max_age_minutes: i64) -> (r: Option<SqlQuery>)
    ensures
        (number_refused(*token, opt_str_view(requested)) || nothing_allowed(*token)) ==> r is None,
        exists|secs: i64, nanos: u32|
            0 <= secs && nanos < 1_000_000_000 && query_view(r)
                == #[trigger] latest_otp_at(opt_str_view(requested), *token, max_age_minutes, secs, nanos),
{
    if let Some(num) = requested {
        if !token.can_access_number(num) {
            assert(latest_otp_at(opt_str_view(requested), *token, max_age_minutes, 0, 0) is None);
            return None;
        }
    }
    let (secs, nanos) = crate::db::clock::now_unix();
    let r = latest_otp_query_at(requested, token, max_age_minutes, secs, nanos);
    assert(query_view(r) == latest_otp_at(opt_str_view(requested), *token, max_age_minutes, secs, nanos));
    r
}

/// A latest-code statement only ever admits rows for numbers the token may access.
pub proof fn law_latest_otp_admits_only_accessible(
    requested: Option<Seq<char>>,
    token: ApiToken,
    recipient: Seq<char>,
)
    requires
        latest_otp_admits(requested, token, recipient),
    ensures
        token.may_access(recipient),
{
    if !token.is_admin {
        if unrestricted(token) {
            let i = choose|i: int|
                0 <= i < token.allowed().len() && #[trigger] crate::db::models::is_wildcard_entry(token.allowed()[i]);
            crate::db::models::law_wildcard_accesses_every_number(token, i, recipient);
        } else {
            crate::db::models::law_listed_number_is_accessible(token, recipient);
        }
    }
}

} // verus!

verus! {

/// A listing never asks for fewer than 1 or more than 500 rows, and asks for 50 when no
/// limit is given.
pub proof fn law_limit_is_clamped(limit: Option<i64>)
    ensures
        1 <= effective_limit(limit) <= 500,
        limit is None ==> effective_limit(limit) == 50,
        limit is Some && 1 <= limit->0 <= 500 ==> effective_limit(limit) == limit->0,
{
}

} // verus!
