//! The texts the MCP tools answer with.

use vstd::prelude::*;
use vstd::utf8::encode_utf8;
use crate::decimal::{int_str, nat_str, push_i64, push_u64};
use crate::json::{absent_or_null_spec, get_bool_spec, get_i64_spec, JsonObject};
use crate::models::{bool_or, col_str, i64_or, rows_view, RowView};
use crate::text::{
    concat_map, join, join_spec, lemma_concat_map_all, lemma_concat_map_step, lemma_encode_utf8_push,
    push_str, to_owned, utf8_len_exceeds, utf8_prefix, views,
};

verus! {

/// The rows of a reply, when it carried any.
pub open spec fn opt_rows(rows: Option<Vec<JsonObject>>) -> Option<Seq<RowView>> {
    match rows {
        Some(r) => Some(r@.map_values(|o: JsonObject| o@)),
        None => None,
    }
}

/// `* ` for an unread entry, two spaces otherwise.
pub open spec fn unread_marker(row: RowView) -> Seq<char> {
    if absent_or_null_spec(row, "read_at"@) {
        "* "@
    } else {
        "  "@
    }
}

/// The message id of a row as text (0 when absent).
pub open spec fn id_text(row: RowView) -> Seq<char> {
    int_str(i64_or(get_i64_spec(row, "message_id"@), 0) as int)
}

/// One line of an inbox summary.
pub open spec fn inbox_line(row: RowView) -> Seq<char> {
    unread_marker(row) + "["@ + id_text(row) + "] From: "@ + col_str(row, "from_agent"@, "?"@)
        + " — \""@ + col_str(row, "subject"@, "(no subject)"@) + "\" — "@ + col_str(
        row,
        "created_at"@,
        ""@,
    ) + "\n"@
}

/// The inbox summary of `agent`.
pub open spec fn inbox_text_spec(
    agent: Seq<char>,
    unread: i64,
    total: i64,
    rows: Option<Seq<RowView>>,
) -> Seq<char> {
    "Inbox for "@ + agent + " ("@ + int_str(unread as int) + " unread of "@ + int_str(total as int)
        + " total)\n\n"@ + match rows {
        Some(rs) => concat_map(rs, |r: RowView| inbox_line(r)) + if rs.len() == 0 {
            "  (no messages)\n"@
        } else {
            Seq::<char>::empty()
        },
        None => Seq::<char>::empty(),
    } + "\n* = unread"@
}

fn push_col(out: &mut String, row: &JsonObject, key: &str, default: &str)
    ensures
        final(out)@ == old(out)@ + col_str(row@, key@, default@),
{
    let v = row.get_str_or(key, default);
    push_str(out, v.as_str());
}

fn push_id(out: &mut String, row: &JsonObject)
    ensures
        final(out)@ == old(out)@ + id_text(row@),
{
    let id = match row.get_i64("message_id") {
        Some(v) => v,
        None => 0,
    };
    push_i64(out, id);
}

fn inbox_line_of(row: &JsonObject) -> (r: String)
    ensures
        r@ == inbox_line(row@),
{
    let mut s = if row.absent_or_null("read_at") {
        to_owned("* ")
    } else {
        to_owned("  ")
    };
    push_str(&mut s, "[");
    push_id(&mut s, row);
    push_str(&mut s, "] From: ");
    push_col(&mut s, row, "from_agent", "?");
    push_str(&mut s, " — \"");
    push_col(&mut s, row, "subject", "(no subject)");
    push_str(&mut s, "\" — ");
    push_col(&mut s, row, "created_at", "");
    push_str(&mut s, "\n");
    assert(s@ =~= inbox_line(row@));
    s
}

/// The inbox summary that `check_inbox` answers with.
pub fn inbox_text(agent: &str, unread: i64, total: i64, rows: &Option<Vec<JsonObject>>) -> (r: String)
    ensures
        r@ == inbox_text_spec(agent@, unread, total, opt_rows(*rows)),
{
    let mut out = to_owned("Inbox for ");
    push_str(&mut out, agent);
    push_str(&mut out, " (");
    push_i64(&mut out, unread);
    push_str(&mut out, " unread of ");
    push_i64(&mut out, total);
    push_str(&mut out, " total)\n\n");
    let ghost head = out@;
    match rows {
        Some(rs) => {
            let ghost rv = rs@.map_values(|o: JsonObject| o@);
            let ghost f = |r: RowView| inbox_line(r);
            proof {
                lemma_concat_map_all(rv, f);
            }
            let mut i: usize = 0;
            while i < rs.len()
                invariant
                    i <= rs@.len(),
                    rv == rs@.map_values(|o: JsonObject| o@),
                    f == (|r: RowView| inbox_line(r)),
                    out@ == head + concat_map(rv.take(i as int), f),
                decreases rs.len() - i,
            {
                let line = inbox_line_of(&rs[i]);
                proof {
                    lemma_concat_map_step(rv, i as int, f);
                    assert(rv[i as int] == rs@[i as int]@);
                    assert(f(rv[i as int]) == line@);
                }
                push_str(&mut out, line.as_str());
                assert(out@ =~= head + concat_map(rv.take(i + 1), f));
                i = i + 1;
            }
            if rs.len() == 0 {
                push_str(&mut out, "  (no messages)\n");
            }
        },
        None => {},
    }
    push_str(&mut out, "\n* = unread");
    assert(out@ =~= inbox_text_spec(agent@, unread, total, opt_rows(*rows)));
    out
}

/// `CC: ...` and a line end when there are copies; nothing otherwise.
pub open spec fn cc_line(cc: Seq<Seq<char>>) -> Seq<char> {
    if cc.len() == 0 {
        Seq::<char>::empty()
    } else {
        "CC: "@ + join_spec(cc, ", "@) + "\n"@
    }
}

/// A message as `read_message` shows it.
pub open spec fn message_text_spec(
    id: i64,
    row: RowView,
    to: Seq<Seq<char>>,
    cc: Seq<Seq<char>>,
) -> Seq<char> {
    "Message #"@ + int_str(id as int) + "\n"@ + "From: "@ + col_str(row, "from_agent"@, "?"@)
        + "\n"@ + "To: "@ + join_spec(to, ", "@) + "\n"@ + cc_line(cc) + "Date: "@ + col_str(
        row,
        "created_at"@,
        ""@,
    ) + "\n"@ + "Thread: "@ + col_str(row, "thread_id"@, ""@) + "\n"@ + "Subject: "@ + col_str(
        row,
        "subject"@,
        "(no subject)"@,
    ) + "\n"@ + "\n"@ + col_str(row, "body"@, ""@)
}

fn push_cc_line(out: &mut String, cc: &Vec<String>)
    ensures
        final(out)@ == old(out)@ + cc_line(views(cc@)),
{
    if cc.len() > 0 {
        push_str(out, "CC: ");
        let j = join(cc.as_slice(), ", ");
        push_str(out, j.as_str());
        push_str(out, "\n");
        assert(out@ =~= old(out)@ + cc_line(views(cc@)));
    } else {
        assert(out@ =~= old(out)@ + cc_line(views(cc@)));
    }
}

/// The text `read_message` answers with.
pub fn message_text(id: i64, row: &JsonObject, to: &Vec<String>, cc: &Vec<String>) -> (r: String)
    ensures
        r@ == message_text_spec(id, row@, views(to@), views(cc@)),
{
    let mut out = to_owned("Message #");
    push_i64(&mut out, id);
    push_str(&mut out, "\n");
    push_str(&mut out, "From: ");
    push_col(&mut out, row, "from_agent", "?");
    push_str(&mut out, "\n");
    push_str(&mut out, "To: ");
    let j = join(to.as_slice(), ", ");
    push_str(&mut out, j.as_str());
    push_str(&mut out, "\n");
    push_cc_line(&mut out, cc);
    push_str(&mut out, "Date: ");
    push_col(&mut out, row, "created_at", "");
    push_str(&mut out, "\n");
    push_str(&mut out, "Thread: ");
    push_col(&mut out, row, "thread_id", "");
    push_str(&mut out, "\n");
    push_str(&mut out, "Subject: ");
    push_col(&mut out, row, "subject", "(no subject)");
    push_str(&mut out, "\n");
    push_str(&mut out, "\n");
    push_col(&mut out, row, "body", "");
    assert(out@ =~= message_text_spec(id, row@, views(to@), views(cc@)));
    out
}

/// The confirmation of a sent message.
pub open spec fn sent_text_spec(
    id: i64,
    tid: Seq<char>,
    to: Seq<Seq<char>>,
    cc: Seq<Seq<char>>,
    subject: Seq<char>,
) -> Seq<char> {
    "Message sent (ID: "@ + int_str(id as int) + ")\n"@ + "Thread: "@ + tid + "\n"@ + "To: "@
        + join_spec(to, ", "@) + "\n"@ + cc_line(cc) + "Subject: "@ + subject
}

/// The text `send_mail` and `reply` answer with.
pub fn sent_text(id: i64, tid: &str, to: &Vec<String>, cc: &Vec<String>, subject: &str) -> (r: String)
    ensures
        r@ == sent_text_spec(id, tid@, views(to@), views(cc@), subject@),
{
    let mut out = to_owned("Message sent (ID: ");
    push_i64(&mut out, id);
    push_str(&mut out, ")\n");
    push_str(&mut out, "Thread: ");
    push_str(&mut out, tid);
    push_str(&mut out, "\n");
    push_str(&mut out, "To: ");
    let j = join(to.as_slice(), ", ");
    push_str(&mut out, j.as_str());
    push_str(&mut out, "\n");
    push_cc_line(&mut out, cc);
    push_str(&mut out, "Subject: ");
    push_str(&mut out, subject);
    assert(out@ =~= sent_text_spec(id, tid@, views(to@), views(cc@), subject@));
    out
}

/// One line of the agent directory.
pub open spec fn directory_line(row: RowView) -> Seq<char> {
    "  "@ + col_str(row, "name"@, "?"@) + " — "@ + col_str(row, "role"@, "-"@) + " ["@ + (if bool_or(
        get_bool_spec(row, "is_active"@),
        false,
    ) {
        "active"@
    } else {
        "inactive"@
    }) + "] (last: "@ + col_str(row, "last_active_at"@, "never"@) + ")\n"@
}

/// The agent directory.
pub open spec fn directory_text_spec(rows: Option<Seq<RowView>>) -> Seq<char> {
    "Agent Directory\n\n"@ + match rows {
        Some(rs) => concat_map(rs, |r: RowView| directory_line(r)) + if rs.len() == 0 {
            "  (no agents registered)\n"@
        } else {
            Seq::<char>::empty()
        },
        None => Seq::<char>::empty(),
    }
}

fn directory_line_of(row: &JsonObject) -> (r: String)
    ensures
        r@ == directory_line(row@),
{
    let mut s = to_owned("  ");
    push_col(&mut s, row, "name", "?");
    push_str(&mut s, " — ");
    push_col(&mut s, row, "role", "-");
    push_str(&mut s, " [");
    let active = match row.get_bool("is_active") {
        Some(b) => b,
        None => false,
    };
    if active {
        push_str(&mut s, "active");
    } else {
        push_str(&mut s, "inactive");
    }
    push_str(&mut s, "] (last: ");
    push_col(&mut s, row, "last_active_at", "never");
    push_str(&mut s, ")\n");
    assert(s@ =~= directory_line(row@));
    s
}

/// The text `list_agents` answers with.
pub fn directory_text(rows: &Option<Vec<JsonObject>>) -> (r: String)
    ensures
        r@ == directory_text_spec(opt_rows(*rows)),
{
    let mut out = to_owned("Agent Directory\n\n");
    let ghost head = out@;
    match rows {
        Some(rs) => {
            let ghost rv = rs@.map_values(|o: JsonObject| o@);
            let ghost f = |r: RowView| directory_line(r);
            proof {
                lemma_concat_map_all(rv, f);
            }
            let mut i: usize = 0;
            while i < rs.len()
                invariant
                    i <= rs@.len(),
                    rv == rs@.map_values(|o: JsonObject| o@),
                    f == (|r: RowView| directory_line(r)),
                    out@ == head + concat_map(rv.take(i as int), f),
                decreases rs.len() - i,
            {
                let line = directory_line_of(&rs[i]);
                proof {
                    lemma_concat_map_step(rv, i as int, f);
                    assert(rv[i as int] == rs@[i as int]@);
                    assert(f(rv[i as int]) == line@);
                }
                push_str(&mut out, line.as_str());
                assert(out@ =~= head + concat_map(rv.take(i + 1), f));
                i = i + 1;
            }
            if rs.len() == 0 {
                push_str(&mut out, "  (no agents registered)\n");
            }
        },
        None => {},
    }
    assert(out@ =~= directory_text_spec(opt_rows(*rows)));
    out
}

// ---------------------------------------------------------------------------
// Search results
// ---------------------------------------------------------------------------

/// Each added character lengthens the UTF-8 encoding.
pub proof fn lemma_encode_len_strictly_increasing(s: Seq<char>, j: int, k: int)
    requires
        0 <= j < k <= s.len(),
    ensures
        encode_utf8(s.take(j)).len() < encode_utf8(s.take(k)).len(),
    decreases k - j,
{
    lemma_encode_utf8_push(s.take(k - 1), s[k - 1]);
    assert(s.take(k) =~= s.take(k - 1).push(s[k - 1]));
    vstd::utf8::char_is_scalar(s[k - 1]);
    if j < k - 1 {
        lemma_encode_len_strictly_increasing(s, j, k - 1);
    }
}

/// Byte `n` of `s`'s encoding falls between two characters.
pub open spec fn is_char_boundary_at(s: Seq<char>, n: int) -> bool {
    exists|k: int| 0 <= k <= s.len() && encode_utf8(#[trigger] s.take(k)).len() == n
}

/// The leading characters of `s` that make up its first `n` bytes.
pub open spec fn byte_prefix(s: Seq<char>, n: int) -> Seq<char> {
    s.take(choose|k: int| 0 <= k <= s.len() && encode_utf8(#[trigger] s.take(k)).len() == n)
}

/// The body as a search result shows it: whole when at most 80 bytes, else
/// its first 77 bytes and `...`.
pub open spec fn preview_spec(body: Seq<char>) -> Seq<char> {
    if encode_utf8(body).len() > 80 {
        byte_prefix(body, 77) + "..."@
    } else {
        body
    }
}

/// Rows whose long bodies can be cut at byte 77.
pub open spec fn previews_cut_cleanly(rows: Seq<RowView>) -> bool {
    forall|i: int|
        0 <= i < rows.len() && encode_utf8(#[trigger] col_str(rows[i], "body"@, ""@)).len() > 80
            ==> is_char_boundary_at(col_str(rows[i], "body"@, ""@), 77)
}

/// One search result.
pub open spec fn search_line(row: RowView) -> Seq<char> {
    unread_marker(row) + "["@ + id_text(row) + "] From: "@ + col_str(row, "from_agent"@, "?"@)
        + " — \""@ + col_str(row, "subject"@, "(no subject)"@) + "\" — "@ + col_str(
        row,
        "created_at"@,
        ""@,
    ) + "\n      "@ + preview_spec(col_str(row, "body"@, ""@)) + "\n\n"@
}

/// The search results.
pub open spec fn search_text_spec(rows: Option<Seq<RowView>>) -> Seq<char> {
    let rs = match rows {
        Some(r) => r,
        None => Seq::<RowView>::empty(),
    };
    "Search Results\n\n"@ + concat_map(rs, |r: RowView| search_line(r)) + if rs.len() == 0 {
        "  (no messages found)\n"@
    } else {
        nat_str(rs.len()) + " result(s)"@
    }
}

/// The preview of one body.
pub fn preview(body: &str) -> (r: String)
    requires
        encode_utf8(body@).len() > 80 ==> is_char_boundary_at(body@, 77),
    ensures
        r@ == preview_spec(body@),
{
    if utf8_len_exceeds(body, 80) {
        match utf8_prefix(body, 77) {
            Some(p) => {
                let mut r = p;
                proof {
                    let k = choose|k: int|
                        0 <= k <= body@.len() && encode_utf8(#[trigger] body@.take(k)).len() == 77;
                    let kp = r@.len() as int;
                    assert(body@.take(kp) =~= r@);
                    if k < kp {
                        lemma_encode_len_strictly_increasing(body@, k, kp);
                    } else if kp < k {
                        lemma_encode_len_strictly_increasing(body@, kp, k);
                    }
                    assert(byte_prefix(body@, 77) == r@);
                }
                push_str(&mut r, "...");
                r
            },
            None => {
                let p = to_owned(body);
                p
            },
        }
    } else {
        to_owned(body)
    }
}

fn search_line_of(row: &JsonObject) -> (r: String)
    requires
        encode_utf8(col_str(row@, "body"@, ""@)).len() > 80 ==> is_char_boundary_at(
            col_str(row@, "body"@, ""@),
            77,
        ),
    ensures
        r@ == search_line(row@),
{
    let mut s = if row.absent_or_null("read_at") {
        to_owned("* ")
    } else {
        to_owned("  ")
    };
    push_str(&mut s, "[");
    push_id(&mut s, row);
    push_str(&mut s, "] From: ");
    push_col(&mut s, row, "from_agent", "?");
    push_str(&mut s, " — \"");
    push_col(&mut s, row, "subject", "(no subject)");
    push_str(&mut s, "\" — ");
    push_col(&mut s, row, "created_at", "");
    push_str(&mut s, "\n      ");
    let body = row.get_str_or("body", "");
    let p = preview(body.as_str());
    push_str(&mut s, p.as_str());
    push_str(&mut s, "\n\n");
    assert(s@ =~= search_line(row@));
    s
}

/// The text `search_mail` answers with.
pub fn search_text(rows: &Option<Vec<JsonObject>>) -> (r: String)
    requires
        previews_cut_cleanly(rows_view(*rows)),
    ensures
        r@ == search_text_spec(opt_rows(*rows)),
{
    let mut out = to_owned("Search Results\n\n");
    let ghost head = out@;
    let mut count: usize = 0;
    match rows {
        Some(rs) => {
            let ghost rv = rs@.map_values(|o: JsonObject| o@);
            let ghost f = |r: RowView| search_line(r);
            proof {
                lemma_concat_map_all(rv, f);
            }
            let mut i: usize = 0;
            while i < rs.len()
                invariant
                    i <= rs@.len(),
                    rv == rs@.map_values(|o: JsonObject| o@),
                    f == (|r: RowView| search_line(r)),
                    rows_view(*rows) == rv,
                    previews_cut_cleanly(rv),
                    out@ == head + concat_map(rv.take(i as int), f),
                decreases rs.len() - i,
            {
                assert(rv[i as int] == rs@[i as int]@);
                let line = search_line_of(&rs[i]);
                proof {
                    lemma_concat_map_step(rv, i as int, f);
                    assert(rv[i as int] == rs@[i as int]@);
                    assert(f(rv[i as int]) == line@);
                }
                push_str(&mut out, line.as_str());
                assert(out@ =~= head + concat_map(rv.take(i + 1), f));
                i = i + 1;
            }
            count = rs.len();
        },
        None => {
            assert(concat_map(Seq::<RowView>::empty(), |r: RowView| search_line(r))
                =~= Seq::<char>::empty());
        },
    }
    if count == 0 {
        push_str(&mut out, "  (no messages found)\n");
    } else {
        push_u64(&mut out, count as u64);
        push_str(&mut out, " result(s)");
    }
    assert(out@ =~= search_text_spec(opt_rows(*rows)));
    out
}

// ---------------------------------------------------------------------------
// Threads
// ---------------------------------------------------------------------------

/// One message of a thread as text.
pub open spec fn thread_entry(row: RowView) -> Seq<char> {
    "--- "@ + col_str(row, "from_agent"@, "?"@) + " — "@ + col_str(row, "created_at"@, ""@)
        + " ---\n"@ + (if col_str(row, "subject"@, ""@).len() == 0 {
        Seq::<char>::empty()
    } else {
        "Subject: "@ + col_str(row, "subject"@, ""@) + "\n"@
    }) + col_str(row, "body"@, ""@) + "\n\n"@
}

/// A thread as text, or why it cannot be shown.
pub open spec fn thread_text_spec(tid: Seq<char>, rows: Option<Seq<RowView>>) -> Result<
    Seq<char>,
    Seq<char>,
> {
    let rs = match rows {
        Some(r) => r,
        None => Seq::<RowView>::empty(),
    };
    if rs.len() == 0 {
        Err("Thread '"@ + tid + "' not found"@)
    } else {
        Ok(
            "Thread: "@ + tid + "\n\n"@ + concat_map(rs, |r: RowView| thread_entry(r)) + "("@
                + nat_str(rs.len()) + " messages)"@,
        )
    }
}

fn thread_entry_of(row: &JsonObject) -> (r: String)
    ensures
        r@ == thread_entry(row@),
{
    let mut s = to_owned("--- ");
    push_col(&mut s, row, "from_agent", "?");
    push_str(&mut s, " — ");
    push_col(&mut s, row, "created_at", "");
    push_str(&mut s, " ---\n");
    let subject = row.get_str_or("subject", "");
    if !subject.as_str().is_empty() {
        push_str(&mut s, "Subject: ");
        push_str(&mut s, subject.as_str());
        push_str(&mut s, "\n");
    }
    push_col(&mut s, row, "body", "");
    push_str(&mut s, "\n\n");
    assert(s@ =~= thread_entry(row@));
    s
}

/// The text of the `mail://thread/{thread_id}` resource.
pub fn thread_text(tid: &str, rows: &Option<Vec<JsonObject>>) -> (r: Result<String, String>)
    ensures
        match thread_text_spec(tid@, opt_rows(*rows)) {
            Ok(t) => r matches Ok(s) && s@ == t,
            Err(e) => r matches Err(s) && s@ == e,
        },
{
    let mut out = to_owned("Thread: ");
    push_str(&mut out, tid);
    push_str(&mut out, "\n\n");
    let ghost head = out@;
    let mut count: usize = 0;
    match rows {
        Some(rs) => {
            let ghost rv = rs@.map_values(|o: JsonObject| o@);
            let ghost f = |r: RowView| thread_entry(r);
            proof {
                lemma_concat_map_all(rv, f);
            }
            let mut i: usize = 0;
            while i < rs.len()
                invariant
                    i <= rs@.len(),
                    rv == rs@.map_values(|o: JsonObject| o@),
                    f == (|r: RowView| thread_entry(r)),
                    out@ == head + concat_map(rv.take(i as int), f),
                decreases rs.len() - i,
            {
                let line = thread_entry_of(&rs[i]);
                proof {
                    lemma_concat_map_step(rv, i as int, f);
                    assert(rv[i as int] == rs@[i as int]@);
                    assert(f(rv[i as int]) == line@);
                }
                push_str(&mut out, line.as_str());
                assert(out@ =~= head + concat_map(rv.take(i + 1), f));
                i = i + 1;
            }
            count = rs.len();
        },
        None => {},
    }
    if count == 0 {
        let mut e = to_owned("Thread '");
        push_str(&mut e, tid);
        push_str(&mut e, "' not found");
        return Err(e);
    }
    push_str(&mut out, "(");
    push_u64(&mut out, count as u64);
    push_str(&mut out, " messages)");
    assert(out@ =~= thread_text_spec(tid@, opt_rows(*rows))->Ok_0);
    Ok(out)
}

} // verus!
