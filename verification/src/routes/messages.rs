//! Messages: sending, inbox pages, reading, marking as read, sent pages.

use vstd::prelude::*;
use vstd::utf8::encode_utf8;
use crate::db::{field_spec, int_param, str_param, DbClient, QueryResponse, SqlQuery};
use crate::error::{query_is, ApiError, ApiErrorView};
use crate::json::{get_str_spec, opt_str_view, JsonObject, JsonView};
use crate::models::{
    col_str, i64_or, inbox_message_from_row, parse_inbox_messages, recipients_spec, row_message_id,
    rows_view, split_recipients, InboxResponse, Pagination, ReadMessageResponse,
    RowView, SendMessageRequest, SendMessageResponse,
};
use crate::routes::agents::opt_json;
use crate::text::{str_eq, to_owned, utf8_len_exceeds, views};

verus! {

pub const MAX_BODY_SIZE: u64 = 65536;

pub const MAX_SUBJECT_LEN: usize = 256;

pub const MAX_RECIPIENTS: usize = 10;

// ---------------------------------------------------------------------------
// Validation
// ---------------------------------------------------------------------------

/// `s` is one of the two body formats.
pub open spec fn is_body_format(s: Seq<char>) -> bool {
    s == "plain"@ || s == "markdown"@
}

/// `s` is one of the four importance levels.
pub open spec fn is_importance(s: Seq<char>) -> bool {
    s == "low"@ || s == "normal"@ || s == "high"@ || s == "urgent"@
}

/// Why a send request is refused, if it is (checked in this order).
pub open spec fn send_error(req: SendMessageRequest) -> Option<Seq<char>> {
    if req.to@.len() == 0 {
        Some("'to' must have at least one recipient"@)
    } else if req.to@.len() + req.cc@.len() > MAX_RECIPIENTS {
        Some("Max 10 recipients"@)
    } else if req.body@.len() == 0 {
        Some("Body cannot be empty"@)
    } else if encode_utf8(req.body@).len() > MAX_BODY_SIZE {
        Some("Body exceeds max size of 65536 bytes"@)
    } else if req.subject matches Some(s) && s@.len() > MAX_SUBJECT_LEN {
        Some("Subject exceeds max length of 256 chars"@)
    } else if !is_body_format(req.body_format@) {
        Some("body_format must be 'plain' or 'markdown'"@)
    } else if !is_importance(req.importance@) {
        Some("importance must be low, normal, high, or urgent"@)
    } else {
        None
    }
}

/// A send request that passes the checks keeps within the documented
/// limits: at least one direct recipient and at most ten in all, a body of 1
/// to 65,536 bytes, a subject of at most 256 characters, a known body format and a
/// known importance.
pub proof fn law_accepted_send_within_limits(req: SendMessageRequest)
    requires
        send_error(req) is None,
    ensures
        1 <= req.to@.len(),
        req.to@.len() + req.cc@.len() <= 10,
        1 <= req.body@.len(),
        encode_utf8(req.body@).len() <= 65536,
        req.subject matches Some(s) ==> s@.len() <= 256,
        is_body_format(req.body_format@),
        is_importance(req.importance@),
{
}

/// The importance levels are exactly the four words `low`, `normal`, `high`
/// and `urgent`: a request that meets every other limit is accepted when its
/// importance is one of them, and refused for its importance otherwise.
pub proof fn law_importance_levels(req: SendMessageRequest)
    requires
        1 <= req.to@.len(),
        req.to@.len() + req.cc@.len() <= 10,
        1 <= req.body@.len(),
        encode_utf8(req.body@).len() <= 65536,
        req.subject matches Some(s) ==> s@.len() <= 256,
        req.body_format@ == "plain"@ || req.body_format@ == "markdown"@,
    ensures
        (req.importance@ == "low"@ || req.importance@ == "normal"@ || req.importance@ == "high"@
            || req.importance@ == "urgent"@) ==> send_error(req) is None,
        !(req.importance@ == "low"@ || req.importance@ == "normal"@ || req.importance@ == "high"@
            || req.importance@ == "urgent"@) ==> send_error(req) == Some(
            "importance must be low, normal, high, or urgent"@,
        ),
{
}

/// Whether `s` is `plain` or `markdown`.
pub fn body_format_ok(s: &str) -> (r: bool)
    ensures
        r == is_body_format(s@),
{
    str_eq(s, "plain") || str_eq(s, "markdown")
}

/// Whether `s` is `low`, `normal`, `high` or `urgent`.
pub fn importance_ok(s: &str) -> (r: bool)
    ensures
        r == is_importance(s@),
        r == (s@ == "low"@ || s@ == "normal"@ || s@ == "high"@ || s@ == "urgent"@),
{
    str_eq(s, "low") || str_eq(s, "normal") || str_eq(s, "high") || str_eq(s, "urgent")
}

/// Checks a send request against the limits: at least one recipient, at most
/// ten in all, a body of 1 to 65536 bytes, a subject of at most 256 characters, a
/// known body format and a known importance.
pub fn validate_send(req: &SendMessageRequest) -> (r: Result<(), ApiError>)
    ensures
        match send_error(*req) {
            Some(m) => r matches Err(e) && e@ == ApiErrorView::BadRequest(m),
            None => r is Ok,
        },
{
    if req.to.len() == 0 {
        return Err(ApiError::BadRequest(to_owned("'to' must have at least one recipient")));
    }
    if req.to.len() > MAX_RECIPIENTS || req.cc.len() > MAX_RECIPIENTS - req.to.len() {
        return Err(ApiError::BadRequest(to_owned("Max 10 recipients")));
    }
    if req.body.as_str().is_empty() {
        return Err(ApiError::BadRequest(to_owned("Body cannot be empty")));
    }
    if utf8_len_exceeds(req.body.as_str(), MAX_BODY_SIZE) {
        return Err(ApiError::BadRequest(to_owned("Body exceeds max size of 65536 bytes")));
    }
    match &req.subject {
        Some(s) => if crate::text::chars_of(s.as_str()).len() > MAX_SUBJECT_LEN {
            return Err(ApiError::BadRequest(to_owned("Subject exceeds max length of 256 chars")));
        },
        None => {},
    }
    if !body_format_ok(req.body_format.as_str()) {
        return Err(ApiError::BadRequest(to_owned("body_format must be 'plain' or 'markdown'")));
    }
    if !importance_ok(req.importance.as_str()) {
        return Err(
            ApiError::BadRequest(to_owned("importance must be low, normal, high, or urgent")),
        );
    }
    Ok(())
}

// ---------------------------------------------------------------------------
// Sending
// ---------------------------------------------------------------------------

pub const SQL_INSERT_MESSAGE: &'static str = "INSERT INTO messages (from_agent_id, thread_id, subject, body, body_format, importance) \
             VALUES ($1::int, $2::text, $3::text, $4::text, $5::text, $6::text) \
             RETURNING id, created_at::text";

pub const SQL_INBOX_TO: &'static str = "INSERT INTO inbox (message_id, agent_id, recipient_type) \
             VALUES ($1::int, $2::int, 'to')";

pub const SQL_INBOX_CC: &'static str = "INSERT INTO inbox (message_id, agent_id, recipient_type) \
             VALUES ($1::int, $2::int, 'cc')";

/// The insert of a message from `from_id`.
pub fn insert_message_query(from_id: i64, thread_id: &str, req: &SendMessageRequest) -> (q: SqlQuery)
    ensures
        query_is(
            q,
            SQL_INSERT_MESSAGE@,
            seq![
                JsonView::Int(from_id),
                JsonView::Str(thread_id@),
                opt_json(req.subject),
                JsonView::Str(req.body@),
                JsonView::Str(req.body_format@),
                JsonView::Str(req.importance@),
            ],
        ),
{
    let mut params = Vec::new();
    params.push(int_param(from_id));
    params.push(str_param(thread_id));
    params.push(crate::db::opt_str(crate::routes::agents::opt_as_str(&req.subject)));
    params.push(str_param(req.body.as_str()));
    params.push(str_param(req.body_format.as_str()));
    params.push(str_param(req.importance.as_str()));
    let q = SqlQuery { sql: to_owned(SQL_INSERT_MESSAGE), params };
    assert(crate::db::params_view(q.params@) =~= seq![
        JsonView::Int(from_id),
        JsonView::Str(thread_id@),
        opt_json(req.subject),
        JsonView::Str(req.body@),
        JsonView::Str(req.body_format@),
        JsonView::Str(req.importance@),
    ]);
    q
}

/// The id and creation time of an inserted message; the time is empty when
/// the reply does not carry it.
pub fn inserted_message(result: &QueryResponse) -> (r: Result<(i64, String), ApiError>)
    ensures
        match field_spec(*result, 0, "id"@) {
            Some(JsonView::Int(id)) => r matches Ok(p) && p.0 == id && p.1@ == match field_spec(
                *result,
                0,
                "created_at"@,
            ) {
                Some(JsonView::Str(s)) => s,
                _ => Seq::<char>::empty(),
            },
            _ => r matches Err(e) && e@ == ApiErrorView::Internal("Failed to insert message"@),
        },
{
    match DbClient::field_i64(result, 0, "id") {
        Some(id) => {
            let created = match DbClient::field_str(result, 0, "created_at") {
                Some(s) => s,
                None => String::new(),
            };
            Ok((id, created))
        },
        None => Err(ApiError::Internal(to_owned("Failed to insert message"))),
    }
}

/// The inbox entry that delivers message `message_id` to agent `agent_id`,
/// as a direct recipient or as a carbon copy.
pub fn inbox_insert_query(message_id: i64, agent_id: i64, cc: bool) -> (q: SqlQuery)
    ensures
        query_is(
            q,
            if cc {
                SQL_INBOX_CC@
            } else {
                SQL_INBOX_TO@
            },
            seq![JsonView::Int(message_id), JsonView::Int(agent_id)],
        ),
{
    let mut params = Vec::new();
    params.push(int_param(message_id));
    params.push(int_param(agent_id));
    let sql = if cc {
        to_owned(SQL_INBOX_CC)
    } else {
        to_owned(SQL_INBOX_TO)
    };
    let q = SqlQuery { sql, params };
    assert(crate::db::params_view(q.params@) =~= seq![
        JsonView::Int(message_id),
        JsonView::Int(agent_id),
    ]);
    q
}

/// The recipients a message is delivered to, in order: first every direct
/// recipient, then every carbon copy, each with whether it is a copy.
pub fn deliveries(to: &Vec<String>, cc: &Vec<String>) -> (r: Vec<(String, bool)>)
    ensures
        r@.len() == to@.len() + cc@.len(),
        forall|i: int| 0 <= i < to@.len() ==> (#[trigger] r@[i]).0@ == to@[i]@ && !r@[i].1,
        forall|i: int|
            0 <= i < cc@.len() ==> (#[trigger] r@[to@.len() + i]).0@ == cc@[i]@ && r@[to@.len()
                + i].1,
{
    let mut r: Vec<(String, bool)> = Vec::new();
    let mut i: usize = 0;
    while i < to.len()
        invariant
            i <= to@.len(),
            r@.len() == i,
            forall|k: int| 0 <= k < i ==> (#[trigger] r@[k]).0@ == to@[k]@ && !r@[k].1,
        decreases to.len() - i,
    {
        r.push((to[i].clone(), false));
        i = i + 1;
    }
    let mut j: usize = 0;
    while j < cc.len()
        invariant
            j <= cc@.len(),
            r@.len() == to@.len() + j,
            forall|k: int| 0 <= k < to@.len() ==> (#[trigger] r@[k]).0@ == to@[k]@ && !r@[k].1,
            forall|k: int|
                0 <= k < j ==> (#[trigger] r@[to@.len() + k]).0@ == cc@[k]@ && r@[to@.len() + k].1,
        decreases cc.len() - j,
    {
        r.push((cc[j].clone(), true));
        j = j + 1;
    }
    r
}

/// Everyone a message goes to: the direct recipients, then the copies.
pub fn all_recipients(to: &Vec<String>, cc: &Vec<String>) -> (r: Vec<String>)
    ensures
        views(r@) == views(to@) + views(cc@),
{
    let mut r: Vec<String> = Vec::new();
    let mut i: usize = 0;
    while i < to.len()
        invariant
            i <= to@.len(),
            r@.len() == i,
            forall|k: int| 0 <= k < i ==> (#[trigger] r@[k])@ == to@[k]@,
        decreases to.len() - i,
    {
        r.push(to[i].clone());
        i = i + 1;
    }
    let mut j: usize = 0;
    while j < cc.len()
        invariant
            j <= cc@.len(),
            r@.len() == to@.len() + j,
            forall|k: int| 0 <= k < to@.len() ==> (#[trigger] r@[k])@ == to@[k]@,
            forall|k: int| 0 <= k < j ==> (#[trigger] r@[to@.len() + k])@ == cc@[k]@,
        decreases cc.len() - j,
    {
        r.push(cc[j].clone());
        j = j + 1;
    }
    assert forall|k: int| 0 <= k < r@.len() implies views(r@)[k] == (views(to@) + views(cc@))[k] by {
        if k >= to@.len() {
            assert(r@[to@.len() + (k - to@.len())]@ == cc@[k - to@.len()]@);
        }
    }
    assert(views(r@) =~= views(to@) + views(cc@));
    r
}

/// The reply to a sent message.
pub fn send_response(
    req: SendMessageRequest,
    message_id: i64,
    thread_id: String,
    created_at: String,
) -> (r: SendMessageResponse)
    ensures
        r.message_id == message_id,
        r.thread_id == thread_id,
        r.from_agent == req.from_agent,
        r.to == req.to,
        r.cc == req.cc,
        r.subject == req.subject,
        r.importance == req.importance,
        r.created_at == created_at,
{
    SendMessageResponse {
        message_id,
        thread_id,
        from_agent: req.from_agent,
        to: req.to,
        cc: req.cc,
        subject: req.subject,
        importance: req.importance,
        created_at,
    }
}

// ---------------------------------------------------------------------------
// Paging
// ---------------------------------------------------------------------------

/// The page asked for: 1 when absent, and never below 1.
pub open spec fn page_of(p: Option<i64>) -> i64 {
    let v = i64_or(p, 1);
    if v < 1 {
        1
    } else {
        v
    }
}

/// The page size asked for: 20 when absent, held between 1 and 100.
pub open spec fn page_size_of(p: Option<i64>) -> i64 {
    let v = i64_or(p, 20);
    if v < 1 {
        1
    } else if v > 100 {
        100
    } else {
        v
    }
}

/// Rust's integer division, which rounds toward zero.
pub open spec fn trunc_div(a: int, b: int) -> int {
    if a >= 0 {
        a / b
    } else {
        -((-a) / b)
    }
}

/// The number of pages for `total` items, `page_size` to a page (with the
/// sum taken in 64-bit two's complement, as the server computes it).
pub open spec fn total_pages_spec(total: i64, page_size: i64) -> i64 {
    if total == 0 {
        0
    } else {
        trunc_div((total + page_size - 1) as i64 as int, page_size as int) as i64
    }
}

/// The query of an inbox or sent listing.
pub struct InboxQuery {
    pub unread: Option<bool>,
    pub page: Option<i64>,
    pub page_size: Option<i64>,
}

/// The body of a mark-as-read request.
pub struct MarkReadRequest {
    pub agent: String,
}

/// Whether an inbox listing shows unread entries only (off when absent).
pub fn unread_only(q: &InboxQuery) -> (r: bool)
    ensures
        r == match q.unread {
            Some(b) => b,
            None => false,
        },
{
    match q.unread {
        Some(b) => b,
        None => false,
    }
}

/// Which slice of a listing a request asks for.
pub struct PageWindow {
    pub page: i64,
    pub page_size: i64,
    /// The number of items before the page (in 64-bit two's complement).
    pub offset: i64,
}

/// The page, its size and the offset of its first item.
pub fn page_window(page: Option<i64>, page_size: Option<i64>) -> (w: PageWindow)
    ensures
        w.page == page_of(page),
        w.page_size == page_size_of(page_size),
        w.offset == ((w.page - 1) * w.page_size) as i64,
        w.page >= 1,
        1 <= w.page_size <= 100,
        match page_size {
            Some(v) => (1 <= v <= 100 ==> w.page_size == v) && (v < 1 ==> w.page_size == 1) && (v > 100
                ==> w.page_size == 100),
            None => w.page_size == 20,
        },
        match page {
            Some(v) => (v >= 1 ==> w.page == v) && (v < 1 ==> w.page == 1),
            None => w.page == 1,
        },
{
    let p = match page {
        Some(v) => v,
        None => 1,
    };
    let p = if p < 1 {
        1
    } else {
        p
    };
    let s = match page_size {
        Some(v) => v,
        None => 20,
    };
    let s = if s < 1 {
        1
    } else if s > 100 {
        100
    } else {
        s
    };
    assert(0 <= (p - 1) as i128 * (s as i128) <= 0x8000_0000_0000_0000i128 * 100) by (nonlinear_arith)
        requires
            0 <= p - 1 < 0x8000_0000_0000_0000i128,
            1 <= s <= 100,
    ;
    let prod: i128 = ((p - 1) as i128) * (s as i128);
    let offset = #[verifier::truncate] (prod as i64);
    PageWindow { page: p, page_size: s, offset }
}

/// The number of pages for `total` items.
pub fn total_pages(total: i64, page_size: i64) -> (r: i64)
    requires
        1 <= page_size <= 100,
    ensures
        r == total_pages_spec(total, page_size),
{
    if total == 0 {
        return 0;
    }
    let num: i64 = #[verifier::truncate] ((total as i128 + page_size as i128 - 1) as i64);
    if num >= 0 {
        let q: u64 = (num as u64) / (page_size as u64);
        assert(q <= num) by (nonlinear_arith)
            requires
                q == (num as u64) / (page_size as u64),
                page_size >= 1,
                num >= 0,
        ;
        q as i64
    } else {
        let mag: u128 = (-(num as i128)) as u128;
        let q: u128 = mag / (page_size as u128);
        assert(q <= mag) by (nonlinear_arith)
            requires
                q == mag / (page_size as u128),
                page_size >= 1,
        ;
        (-(q as i128)) as i64
    }
}

/// The pages cover the items exactly: for a positive count that leaves room
/// for the page size, every item falls on a page, and the last page is not
/// empty.
pub proof fn law_pages_cover_total(total: i64, page_size: i64)
    requires
        1 <= page_size <= 100,
        1 <= total <= i64::MAX - page_size,
    ensures
        (total_pages_spec(total, page_size) - 1) * page_size < total <= total_pages_spec(
            total,
            page_size,
        ) * page_size,
{
    let n: int = total + page_size - 1;
    let ps: int = page_size as int;
    let p: int = n / ps;
    assert(trunc_div(n as i64 as int, ps) == p);
    assert(p * ps <= n < p * ps + ps) by (nonlinear_arith)
        requires
            p == n / ps,
            ps >= 1,
            n >= 0,
    ;
    assert(0 <= p <= n) by (nonlinear_arith)
        requires
            p == n / ps,
            ps >= 1,
            n >= 0,
    ;
    assert(total_pages_spec(total, page_size) == p);
    assert((p - 1) * ps == p * ps - ps) by (nonlinear_arith);
}

/// A page window always asks for a real page of a bounded size, starting
/// after the earlier pages.
pub proof fn law_page_window_bounds(page: Option<i64>, page_size: Option<i64>)
    ensures
        page_of(page) >= 1,
        1 <= page_size_of(page_size) <= 100,
        (page_of(page) - 1) * page_size_of(page_size) <= i64::MAX ==> ((page_of(page) - 1)
            * page_size_of(page_size)) as i64 == (page_of(page) - 1) * page_size_of(page_size),
{
}

/// The page size is the one asked for, held to 1..=100 (`clamp(1, 100)`),
/// and 20 when none is asked for; the page is the one asked for, and 1 when
/// none or one below 1 is asked for. So a size inside the bounds is never
/// shrunk or grown.
pub proof fn law_page_window_as_requested(page: Option<i64>, page_size: Option<i64>)
    ensures
        forall|v: i64| page_size == Some(v) && 1 <= v <= 100 ==> page_size_of(page_size) == v,
        forall|v: i64| page_size == Some(v) && v < 1 ==> page_size_of(page_size) == 1,
        forall|v: i64| page_size == Some(v) && v > 100 ==> page_size_of(page_size) == 100,
        page_size is None ==> page_size_of(page_size) == 20,
        forall|v: i64| page == Some(v) && v >= 1 ==> page_of(page) == v,
        forall|v: i64| page == Some(v) && v < 1 ==> page_of(page) == 1,
        page is None ==> page_of(page) == 1,
{
}

/// Where a page stands.
pub fn pagination(w: &PageWindow, total_count: i64) -> (r: Pagination)
    requires
        1 <= w.page_size <= 100,
    ensures
        r.page == w.page,
        r.page_size == w.page_size,
        r.total_count == total_count,
        r.total_pages == total_pages_spec(total_count, w.page_size),
{
    Pagination {
        page: w.page,
        page_size: w.page_size,
        total_count,
        total_pages: total_pages(total_count, w.page_size),
    }
}

/// The count in the first row of a reply, 0 when absent.
pub open spec fn count_of(r: QueryResponse) -> i64 {
    match field_spec(r, 0, "cnt"@) {
        Some(JsonView::Int(c)) => c,
        _ => 0,
    }
}

/// Reads a count from the first row of a reply.
pub fn count_from(r: &QueryResponse) -> (c: i64)
    ensures
        c == count_of(*r),
{
    match DbClient::field_i64(r, 0, "cnt") {
        Some(c) => c,
        None => 0,
    }
}

// ---------------------------------------------------------------------------
// Looking up an agent
// ---------------------------------------------------------------------------

/// The id of the agent a lookup found, or `Agent '<name>' not found`.
pub fn agent_id_or_not_found(result: &QueryResponse, name: &str) -> (r: Result<i64, ApiError>)
    ensures
        match crate::routes::agents::first_id(*result) {
            Some(id) => r matches Ok(got) && got == id,
            None => r matches Err(e) && e@ == ApiErrorView::NotFound(
                "Agent '"@ + name@ + "' not found"@,
            ),
        },
{
    match DbClient::field_i64(result, 0, "id") {
        Some(id) => Ok(id),
        None => {
            let mut m = to_owned("Agent '");
            crate::text::push_str(&mut m, name);
            crate::text::push_str(&mut m, "' not found");
            Err(ApiError::NotFound(m))
        },
    }
}

// ---------------------------------------------------------------------------
// Inbox
// ---------------------------------------------------------------------------

pub const SQL_INBOX_COUNT_UNREAD: &'static str = "SELECT COUNT(*) as cnt FROM inbox i \
             WHERE i.agent_id = $1::int AND i.read_at IS NULL AND i.archived_at IS NULL";

pub const SQL_INBOX_PAGE_UNREAD: &'static str = "SELECT i.id as inbox_id, m.id as message_id, a.name as from_agent, \
             a.display_name as from_agent_display, m.subject, m.body, m.body_format, \
             m.importance, i.recipient_type, m.created_at::text as created_at, \
             i.read_at::text as read_at \
             FROM inbox i \
             JOIN messages m ON m.id = i.message_id \
             JOIN agents a ON a.id = m.from_agent_id \
             WHERE i.agent_id = $1::int AND i.read_at IS NULL AND i.archived_at IS NULL \
             ORDER BY m.created_at DESC \
             LIMIT $2::int OFFSET $3::int";

pub const SQL_INBOX_COUNT_ALL: &'static str = "SELECT COUNT(*) as cnt FROM inbox i \
             WHERE i.agent_id = $1::int AND i.archived_at IS NULL";

pub const SQL_INBOX_PAGE_ALL: &'static str = "SELECT i.id as inbox_id, m.id as message_id, a.name as from_agent, \
             a.display_name as from_agent_display, m.subject, m.body, m.body_format, \
             m.importance, i.recipient_type, m.created_at::text as created_at, \
             i.read_at::text as read_at \
             FROM inbox i \
             JOIN messages m ON m.id = i.message_id \
             JOIN agents a ON a.id = m.from_agent_id \
             WHERE i.agent_id = $1::int AND i.archived_at IS NULL \
             ORDER BY m.created_at DESC \
             LIMIT $2::int OFFSET $3::int";

pub const SQL_UNREAD_COUNT: &'static str = "SELECT COUNT(*) as cnt FROM inbox \
             WHERE agent_id = $1::int AND read_at IS NULL AND archived_at IS NULL";

/// The three queries of an inbox page: the count of the listed entries, the
/// count of unread entries, and the page itself (unread entries only when
/// `unread`).
pub fn inbox_queries(agent_id: i64, unread: bool, w: &PageWindow) -> (r: (SqlQuery, SqlQuery, SqlQuery))
    ensures
        query_is(
            r.0,
            if unread {
                SQL_INBOX_COUNT_UNREAD@
            } else {
                SQL_INBOX_COUNT_ALL@
            },
            seq![JsonView::Int(agent_id)],
        ),
        query_is(r.1, SQL_UNREAD_COUNT@, seq![JsonView::Int(agent_id)]),
        query_is(
            r.2,
            if unread {
                SQL_INBOX_PAGE_UNREAD@
            } else {
                SQL_INBOX_PAGE_ALL@
            },
            seq![JsonView::Int(agent_id), JsonView::Int(w.page_size), JsonView::Int(w.offset)],
        ),
{
    let (count_sql, page_sql) = if unread {
        (to_owned(SQL_INBOX_COUNT_UNREAD), to_owned(SQL_INBOX_PAGE_UNREAD))
    } else {
        (to_owned(SQL_INBOX_COUNT_ALL), to_owned(SQL_INBOX_PAGE_ALL))
    };
    let count = SqlQuery { sql: count_sql, params: vec![int_param(agent_id)] };
    let unread_q = SqlQuery { sql: to_owned(SQL_UNREAD_COUNT), params: vec![int_param(agent_id)] };
    let page = SqlQuery {
        sql: page_sql,
        params: vec![int_param(agent_id), int_param(w.page_size), int_param(w.offset)],
    };
    assert(crate::db::params_view(count.params@) =~= seq![JsonView::Int(agent_id)]);
    assert(crate::db::params_view(unread_q.params@) =~= seq![JsonView::Int(agent_id)]);
    assert(crate::db::params_view(page.params@) =~= seq![
        JsonView::Int(agent_id),
        JsonView::Int(w.page_size),
        JsonView::Int(w.offset),
    ]);
    (count, unread_q, page)
}

/// An inbox page with where it stands.
pub struct InboxPage {
    pub data: InboxResponse,
    pub pagination: Pagination,
}

/// `r` is the inbox page of `agent` for the window `w`, from the replies to
/// the listing count, the unread count and the page query.
pub open spec fn inbox_page_is(
    r: InboxPage,
    agent: String,
    w: PageWindow,
    count: QueryResponse,
    unread: QueryResponse,
    page: QueryResponse,
) -> bool {
    &&& r.data.agent == agent
    &&& r.data.unread_count == count_of(unread)
    &&& r.data.messages@.len() == rows_view(page.rows).len()
    &&& forall|i: int|
        0 <= i < r.data.messages@.len() ==> inbox_message_from_row(
            #[trigger] r.data.messages@[i],
            rows_view(page.rows)[i],
        )
    &&& r.pagination.page == w.page
    &&& r.pagination.page_size == w.page_size
    &&& r.pagination.total_count == count_of(count)
    &&& r.pagination.total_pages == total_pages_spec(count_of(count), w.page_size)
}

/// The inbox page of `agent` from the replies to its three queries.
pub fn inbox_page(
    agent: String,
    w: &PageWindow,
    count: &QueryResponse,
    unread: &QueryResponse,
    page: &QueryResponse,
) -> (r: InboxPage)
    requires
        1 <= w.page_size <= 100,
    ensures
        inbox_page_is(r, agent, *w, *count, *unread, *page),
{
    let total_count = count_from(count);
    let unread_count = count_from(unread);
    let messages = parse_inbox_messages(&page.rows);
    InboxPage {
        data: InboxResponse { agent, messages, unread_count },
        pagination: pagination(w, total_count),
    }
}

// ---------------------------------------------------------------------------
// Reading one message
// ---------------------------------------------------------------------------

pub const SQL_MESSAGE_BY_ID: &'static str = "SELECT m.id as message_id, a.name as from_agent, a.display_name as from_agent_display, \
             m.subject, m.body, m.body_format, m.importance, m.thread_id, \
             m.created_at::text as created_at \
             FROM messages m \
             JOIN agents a ON a.id = m.from_agent_id \
             WHERE m.id = $1::int";

pub const SQL_RECIPIENTS_OF: &'static str = "SELECT a.name, i.recipient_type FROM inbox i \
             JOIN agents a ON a.id = i.agent_id \
             WHERE i.message_id = $1::int";

/// A query with one integer parameter.
pub fn query_with_id(sql: &str, id: i64) -> (q: SqlQuery)
    ensures
        query_is(q, sql@, seq![JsonView::Int(id)]),
{
    let q = SqlQuery { sql: to_owned(sql), params: vec![int_param(id)] };
    assert(crate::db::params_view(q.params@) =~= seq![JsonView::Int(id)]);
    q
}

/// The message `<id>` and its sender.
pub fn message_query(id: i64) -> (q: SqlQuery)
    ensures
        query_is(q, SQL_MESSAGE_BY_ID@, seq![JsonView::Int(id)]),
{
    query_with_id(SQL_MESSAGE_BY_ID, id)
}

/// The recipients of message `<id>`.
pub fn recipients_query(id: i64) -> (q: SqlQuery)
    ensures
        query_is(q, SQL_RECIPIENTS_OF@, seq![JsonView::Int(id)]),
{
    query_with_id(SQL_RECIPIENTS_OF, id)
}

/// The first row of a reply, or `Message <id> not found`.
pub fn message_row(result: &QueryResponse, id: i64) -> (r: Result<&JsonObject, ApiError>)
    ensures
        match r {
            Ok(row) => rows_view(result.rows).len() > 0 && row@ == rows_view(result.rows)[0],
            Err(e) => rows_view(result.rows).len() == 0 && e@ == ApiErrorView::NotFound(
                "Message "@ + crate::decimal::int_str(id as int) + " not found"@,
            ),
        },
{
    match &result.rows {
        Some(rows) => if rows.len() > 0 {
            return Ok(&rows[0]);
        },
        None => {},
    }
    let mut m = to_owned("Message ");
    crate::decimal::push_i64(&mut m, id);
    crate::text::push_str(&mut m, " not found");
    Err(ApiError::NotFound(m))
}

/// `r` is message `id` as read: its row, and the recipients that the reply
/// `recipients` lists, split by kind.
pub open spec fn read_response_is(r: ReadMessageResponse, id: i64, row: RowView, recipients: QueryResponse) -> bool {
    &&& r.message_id == id
    &&& r.from_agent@ == col_str(row, "from_agent"@, ""@)
    &&& opt_str_view(r.from_agent_display) == get_str_spec(row, "from_agent_display"@)
    &&& views(r.to@) == recipients_spec(rows_view(recipients.rows), None, false)
    &&& views(r.cc@) == recipients_spec(rows_view(recipients.rows), None, true)
    &&& opt_str_view(r.subject) == get_str_spec(row, "subject"@)
    &&& r.body@ == col_str(row, "body"@, ""@)
    &&& r.body_format@ == col_str(row, "body_format"@, "markdown"@)
    &&& r.importance@ == col_str(row, "importance"@, "normal"@)
    &&& r.thread_id@ == col_str(row, "thread_id"@, ""@)
    &&& r.created_at@ == col_str(row, "created_at"@, ""@)
}

/// A message as read: its row, and its recipients split by kind.
pub fn read_message_response(id: i64, row: &JsonObject, recipients: &QueryResponse) -> (r:
    ReadMessageResponse)
    ensures
        read_response_is(r, id, row@, *recipients),
{
    let (to, cc) = split_recipients(&recipients.rows, None);
    ReadMessageResponse {
        message_id: id,
        from_agent: row.get_str_or("from_agent", ""),
        from_agent_display: row.get_str("from_agent_display"),
        to,
        cc,
        subject: row.get_str("subject"),
        body: row.get_str_or("body", ""),
        body_format: row.get_str_or("body_format", "markdown"),
        importance: row.get_str_or("importance", "normal"),
        thread_id: row.get_str_or("thread_id", ""),
        created_at: row.get_str_or("created_at", ""),
    }
}

// ---------------------------------------------------------------------------
// Marking as read
// ---------------------------------------------------------------------------

pub const SQL_MARK_READ: &'static str = "UPDATE inbox SET read_at = NOW() \
             WHERE message_id = $1::int AND agent_id = $2::int AND read_at IS NULL \
             RETURNING id";

/// The update that marks message `message_id` read for agent `agent_id`.
pub fn mark_read_query(message_id: i64, agent_id: i64) -> (q: SqlQuery)
    ensures
        query_is(q, SQL_MARK_READ@, seq![JsonView::Int(message_id), JsonView::Int(agent_id)]),
{
    let q = SqlQuery {
        sql: to_owned(SQL_MARK_READ),
        params: vec![int_param(message_id), int_param(agent_id)],
    };
    assert(crate::db::params_view(q.params@) =~= seq![
        JsonView::Int(message_id),
        JsonView::Int(agent_id),
    ]);
    q
}

/// How many entries an update touched: the rows it returned.
pub fn rows_touched(result: &QueryResponse) -> (n: usize)
    ensures
        n == rows_view(result.rows).len(),
{
    match &result.rows {
        Some(r) => r.len(),
        None => 0,
    }
}

// ---------------------------------------------------------------------------
// Sent messages
// ---------------------------------------------------------------------------

pub const SQL_SENT_COUNT: &'static str = "SELECT COUNT(*) as cnt FROM messages WHERE from_agent_id = $1::int";

pub const SQL_SENT_PAGE: &'static str = "SELECT m.id as message_id, m.subject, m.body, m.body_format, m.importance, \
             m.thread_id, m.created_at::text as created_at \
             FROM messages m \
             WHERE m.from_agent_id = $1::int \
             ORDER BY m.created_at DESC \
             LIMIT $2::int OFFSET $3::int";

pub const SQL_SENT_RECIPIENTS: &'static str = "SELECT i.message_id, a.name, i.recipient_type FROM inbox i \
             JOIN agents a ON a.id = i.agent_id \
             WHERE i.message_id IN ( \
               SELECT m.id FROM messages m WHERE m.from_agent_id = $1::int \
               ORDER BY m.created_at DESC LIMIT $2::int OFFSET $3::int \
             )";

/// The three queries of a page of sent messages: their count, the page, and
/// the recipients of the messages on the page.
pub fn sent_queries(agent_id: i64, w: &PageWindow) -> (r: (SqlQuery, SqlQuery, SqlQuery))
    ensures
        query_is(r.0, SQL_SENT_COUNT@, seq![JsonView::Int(agent_id)]),
        query_is(
            r.1,
            SQL_SENT_PAGE@,
            seq![JsonView::Int(agent_id), JsonView::Int(w.page_size), JsonView::Int(w.offset)],
        ),
        query_is(
            r.2,
            SQL_SENT_RECIPIENTS@,
            seq![JsonView::Int(agent_id), JsonView::Int(w.page_size), JsonView::Int(w.offset)],
        ),
{
    let count = query_with_id(SQL_SENT_COUNT, agent_id);
    let page = SqlQuery {
        sql: to_owned(SQL_SENT_PAGE),
        params: vec![int_param(agent_id), int_param(w.page_size), int_param(w.offset)],
    };
    let recips = SqlQuery {
        sql: to_owned(SQL_SENT_RECIPIENTS),
        params: vec![int_param(agent_id), int_param(w.page_size), int_param(w.offset)],
    };
    assert(crate::db::params_view(page.params@) =~= seq![
        JsonView::Int(agent_id),
        JsonView::Int(w.page_size),
        JsonView::Int(w.offset),
    ]);
    assert(crate::db::params_view(recips.params@) =~= seq![
        JsonView::Int(agent_id),
        JsonView::Int(w.page_size),
        JsonView::Int(w.offset),
    ]);
    (count, page, recips)
}

/// A sent message with its recipients.
pub struct SentMessage {
    pub message_id: i64,
    pub to: Vec<String>,
    pub cc: Vec<String>,
    pub subject: Option<String>,
    pub body: String,
    pub body_format: String,
    pub importance: String,
    pub thread_id: String,
    pub created_at: String,
}

/// `m` is what a sent-messages row reads as, with the recipients that the
/// recipient rows give for its id.
pub open spec fn sent_message_from(m: SentMessage, row: RowView, recips: Seq<RowView>) -> bool {
    &&& m.message_id == row_message_id(row)
    &&& views(m.to@) == recipients_spec(recips, Some(row_message_id(row)), false)
    &&& views(m.cc@) == recipients_spec(recips, Some(row_message_id(row)), true)
    &&& opt_str_view(m.subject) == get_str_spec(row, "subject"@)
    &&& m.body@ == col_str(row, "body"@, ""@)
    &&& m.body_format@ == col_str(row, "body_format"@, "markdown"@)
    &&& m.importance@ == col_str(row, "importance"@, "normal"@)
    &&& m.thread_id@ == col_str(row, "thread_id"@, ""@)
    &&& m.created_at@ == col_str(row, "created_at"@, ""@)
}

/// A page of sent messages.
pub struct SentPage {
    pub agent: String,
    pub messages: Vec<SentMessage>,
    pub pagination: Pagination,
}

/// `r` is the sent page of `agent` for the window `w`, from the replies to
/// the count, the page query and the recipients query.
pub open spec fn sent_page_is(
    r: SentPage,
    agent: String,
    w: PageWindow,
    count: QueryResponse,
    page: QueryResponse,
    recipients: QueryResponse,
) -> bool {
    &&& r.agent == agent
    &&& r.messages@.len() == rows_view(page.rows).len()
    &&& forall|i: int|
        0 <= i < r.messages@.len() ==> sent_message_from(
            #[trigger] r.messages@[i],
            rows_view(page.rows)[i],
            rows_view(recipients.rows),
        )
    &&& r.pagination.page == w.page
    &&& r.pagination.page_size == w.page_size
    &&& r.pagination.total_count == count_of(count)
    &&& r.pagination.total_pages == total_pages_spec(count_of(count), w.page_size)
}

/// The sent page of `agent` from the replies to its three queries.
pub fn sent_page(
    agent: String,
    w: &PageWindow,
    count: &QueryResponse,
    page: &QueryResponse,
    recipients: &QueryResponse,
) -> (r: SentPage)
    requires
        1 <= w.page_size <= 100,
    ensures
        sent_page_is(r, agent, *w, *count, *page, *recipients),
{
    let total_count = count_from(count);
    let mut messages: Vec<SentMessage> = Vec::new();
    match &page.rows {
        Some(rows) => {
            let mut i: usize = 0;
            while i < rows.len()
                invariant
                    i <= rows@.len(),
                    rows_view(page.rows) == rows@.map_values(|o: JsonObject| o@),
                    messages@.len() == i,
                    forall|k: int|
                        0 <= k < i ==> sent_message_from(
                            #[trigger] messages@[k],
                            rows@[k]@,
                            rows_view(recipients.rows),
                        ),
                decreases rows.len() - i,
            {
                let row = &rows[i];
                let id = match row.get_i64("message_id") {
                    Some(v) => v,
                    None => 0,
                };
                let (to, cc) = split_recipients(&recipients.rows, Some(id));
                messages.push(
                    SentMessage {
                        message_id: id,
                        to,
                        cc,
                        subject: row.get_str("subject"),
                        body: row.get_str_or("body", ""),
                        body_format: row.get_str_or("body_format", "markdown"),
                        importance: row.get_str_or("importance", "normal"),
                        thread_id: row.get_str_or("thread_id", ""),
                        created_at: row.get_str_or("created_at", ""),
                    },
                );
                i = i + 1;
            }
        },
        None => {},
    }
    SentPage { agent, messages, pagination: pagination(w, total_count) }
}

} // verus!
