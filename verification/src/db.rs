//! The storage client's own logic: where queries go, what a reply means, how
//! fields are read from rows, and the order in which the schema is applied.

use vstd::prelude::*;
use crate::json::{
    obj_get, opt_str_view, opt_view, JsonObject, JsonValue, JsonView,
};
use crate::text::{
    chars_of, contains, from_char_range, join, join_spec, occurs_at, push_str, split, split_spec,
    to_owned, trim, trim_spec, trim_start, trim_start_spec, views,
};

verus! {

/// `s` without any trailing `c` (what `str::trim_end_matches(c)` gives).
pub open spec fn trim_end_char_spec(s: Seq<char>, c: char) -> Seq<char>
    decreases s.len(),
{
    if s.len() > 0 && s.last() == c {
        trim_end_char_spec(s.drop_last(), c)
    } else {
        s
    }
}

/// The address of the database service, without trailing slashes.
pub struct DbClient {
    pub micro_url: String,
}

/// A statement and its positional parameters.
pub struct SqlQuery {
    pub sql: String,
    pub params: Vec<JsonValue>,
}

/// The views of a list of parameters.
pub open spec fn params_view(p: Seq<JsonValue>) -> Seq<JsonView> {
    p.map_values(|v: JsonValue| v@)
}

/// The reply of the database service to one query.
pub struct QueryResponse {
    pub success: Option<bool>,
    /// Each row is an object from column name to value.
    pub rows: Option<Vec<JsonObject>>,
    pub row_count: Option<i64>,
    /// Present when the statement failed; it may carry `detail` and `message`.
    pub error: Option<JsonObject>,
}

/// The row at `row`, if there is one.
pub open spec fn row_spec(r: QueryResponse, row: int) -> Option<Seq<(Seq<char>, JsonView)>> {
    match r.rows {
        Some(rows) => if 0 <= row < rows@.len() {
            Some(rows@[row]@)
        } else {
            None
        },
        None => None,
    }
}

/// The value of `field` in row `row`.
pub open spec fn field_spec(r: QueryResponse, row: int, field: Seq<char>) -> Option<JsonView> {
    match row_spec(r, row) {
        Some(o) => obj_get(o, field),
        None => None,
    }
}

/// The text of the error that the service reported: its `detail` if present,
/// else its `message`, if that value is a string; else `Unknown error`.
pub open spec fn db_error_text(e: Seq<(Seq<char>, JsonView)>) -> Seq<char> {
    let v = match obj_get(e, "detail"@) {
        Some(d) => Some(d),
        None => obj_get(e, "message"@),
    };
    match v {
        Some(JsonView::Str(s)) => s,
        _ => "Unknown error"@,
    }
}

/// `Value::Number` for an integer parameter.
pub fn int_param(v: i64) -> (r: JsonValue)
    ensures
        r@ == JsonView::Int(v),
{
    JsonValue::Int(v)
}

/// `Value::String` for a text parameter.
pub fn str_param(s: &str) -> (r: JsonValue)
    ensures
        r@ == JsonView::Str(s@),
{
    JsonValue::Str(to_owned(s))
}

/// `Value::String(s)` for `Some(s)`, `Value::Null` for `None`.
pub fn opt_str(val: Option<&str>) -> (r: JsonValue)
    ensures
        r@ == match val {
            Some(s) => JsonView::Str(s@),
            None => JsonView::Null,
        },
{
    match val {
        Some(s) => JsonValue::Str(crate::text::to_owned(s)),
        None => JsonValue::Null,
    }
}

proof fn lemma_trim_end_char(s: Seq<char>, c: char)
    ensures
        trim_end_char_spec(trim_end_char_spec(s, c), c) == trim_end_char_spec(s, c),
        trim_end_char_spec(s, c).len() == 0 || trim_end_char_spec(s, c).last() != c,
        trim_end_char_spec(s, c).is_prefix_of(s),
    decreases s.len(),
{
    if s.len() > 0 && s.last() == c {
        lemma_trim_end_char(s.drop_last(), c);
        let t = trim_end_char_spec(s.drop_last(), c);
        assert(t.is_prefix_of(s)) by {
            assert(forall|i: int| 0 <= i < t.len() ==> t[i] == s.drop_last()[i]);
        }
    }
}

/// The service address never ends with a slash, and normalizing it twice
/// changes nothing; it is the given address with its trailing slashes cut.
pub proof fn law_micro_url_normalized(url: Seq<char>)
    ensures
        trim_end_char_spec(url, '/').len() == 0 || trim_end_char_spec(url, '/').last() != '/',
        trim_end_char_spec(trim_end_char_spec(url, '/'), '/') == trim_end_char_spec(url, '/'),
        trim_end_char_spec(url, '/').is_prefix_of(url),
{
    lemma_trim_end_char(url, '/');
}

impl DbClient {
    /// A client for the service at `micro_url`; trailing slashes are dropped.
    pub fn new(micro_url: &str) -> (r: DbClient)
        ensures
            r.micro_url@ == trim_end_char_spec(micro_url@, '/'),
    {
        let v = chars_of(micro_url);
        let mut j: usize = v.len();
        assert(v@.subrange(0, j as int) =~= v@);
        while j > 0 && v[j - 1] == '/'
            invariant
                j <= v@.len(),
                v@ == micro_url@,
                trim_end_char_spec(micro_url@, '/') == trim_end_char_spec(
                    v@.subrange(0, j as int),
                    '/',
                ),
            decreases j,
        {
            assert(v@.subrange(0, j as int).drop_last() =~= v@.subrange(0, j - 1));
            j = j - 1;
        }
        DbClient { micro_url: from_char_range(v.as_slice(), 0, j) }
    }

    /// The endpoint that takes queries.
    pub fn query_url(&self) -> (r: String)
        ensures
            r@ == self.micro_url@ + "/v1/query"@,
    {
        let mut r = self.micro_url.clone();
        push_str(&mut r, "/v1/query");
        r
    }

    /// What a reply of the service yields: the reply itself, or the error text
    /// `SQL error: ...` when the service reported an error.
    pub fn check_response(result: QueryResponse) -> (r: Result<QueryResponse, String>)
        ensures
            match result.error {
                Some(e) => r matches Err(m) && m@ == "SQL error: "@ + db_error_text(e@),
                None => r == Ok::<QueryResponse, String>(result),
            },
    {
        match &result.error {
            Some(e) => {
                let v = match e.get("detail") {
                    Some(d) => Some(d),
                    None => e.get("message"),
                };
                let mut m = to_owned("SQL error: ");
                match v {
                    Some(JsonValue::Str(s)) => push_str(&mut m, s.as_str()),
                    _ => push_str(&mut m, "Unknown error"),
                }
                Err(m)
            },
            None => Ok(result),
        }
    }

    /// The value of `field` in row `row` of `response`.
    pub fn field(response: &QueryResponse, row: usize, field: &str) -> (r: Option<JsonValue>)
        ensures
            opt_view(r) == field_spec(*response, row as int, field@),
    {
        match &response.rows {
            Some(rows) => if row < rows.len() {
                rows[row].get(field)
            } else {
                None
            },
            None => None,
        }
    }

    /// The string value of `field` in row `row`.
    pub fn field_str(response: &QueryResponse, row: usize, field: &str) -> (r: Option<String>)
        ensures
            opt_str_view(r) == match field_spec(*response, row as int, field@) {
                Some(JsonView::Str(s)) => Some(s),
                _ => None::<Seq<char>>,
            },
    {
        match Self::field(response, row, field) {
            Some(JsonValue::Str(s)) => Some(s),
            _ => None,
        }
    }

    /// The integer value of `field` in row `row`.
    pub fn field_i64(response: &QueryResponse, row: usize, field: &str) -> (r: Option<i64>)
        ensures
            r == match field_spec(*response, row as int, field@) {
                Some(JsonView::Int(i)) => Some(i),
                _ => None::<i64>,
            },
    {
        match Self::field(response, row, field) {
            Some(JsonValue::Int(i)) => Some(i),
            _ => None,
        }
    }
}


// ---------------------------------------------------------------------------
// Schema migration
// ---------------------------------------------------------------------------

/// A line that is only a comment: after leading whitespace it begins `--`.
pub open spec fn is_comment_line(l: Seq<char>) -> bool {
    "--"@.is_prefix_of(trim_start_spec(l))
}

/// The lines that are not comment lines, in order.
pub open spec fn code_lines(ls: Seq<Seq<char>>) -> Seq<Seq<char>>
    decreases ls.len(),
{
    if ls.len() == 0 {
        Seq::<Seq<char>>::empty()
    } else {
        let prev = code_lines(ls.drop_last());
        if is_comment_line(ls.last()) {
            prev
        } else {
            prev.push(ls.last())
        }
    }
}

/// The statement a piece of the script holds: its non-comment lines, trimmed.
pub open spec fn statement_text(piece: Seq<char>) -> Seq<char> {
    trim_spec(join_spec(code_lines(split_spec(piece, '\n')), "\n"@))
}

/// The statements of a script, in order: each piece between semicolons
/// without its comment lines, trimmed, empty ones left out, each ended by
/// `;`.
pub open spec fn statements_spec(pieces: Seq<Seq<char>>) -> Seq<Seq<char>>
    decreases pieces.len(),
{
    if pieces.len() == 0 {
        Seq::<Seq<char>>::empty()
    } else {
        let prev = statements_spec(pieces.drop_last());
        let t = statement_text(pieces.last());
        if t.len() == 0 {
            prev
        } else {
            prev.push(t + ";"@)
        }
    }
}

/// The statements of the migration script `sql`.
pub open spec fn migration_statements_spec(sql: Seq<char>) -> Seq<Seq<char>> {
    statements_spec(split_spec(sql, ';'))
}

/// Whether a line is only a comment.
pub fn comment_line(l: &str) -> (r: bool)
    ensures
        r == is_comment_line(l@),
{
    let t = trim_start(l);
    crate::text::starts_with(t.as_str(), "--")
}

/// The statement a piece of the script holds.
pub fn statement_of(piece: &str) -> (r: String)
    ensures
        r@ == statement_text(piece@),
{
    let lines = split(piece, '\n');
    let mut kept: Vec<String> = Vec::new();
    let mut i: usize = 0;
    assert(views(lines@).take(0) =~= Seq::<Seq<char>>::empty());
    assert(views(kept@) =~= Seq::<Seq<char>>::empty());
    while i < lines.len()
        invariant
            i <= lines@.len(),
            views(lines@) == split_spec(piece@, '\n'),
            views(kept@) == code_lines(views(lines@).take(i as int)),
        decreases lines.len() - i,
    {
        assert(views(lines@).take(i + 1).drop_last() =~= views(lines@).take(i as int));
        assert(views(lines@).take(i + 1).last() == lines@[i as int]@);
        if !comment_line(lines[i].as_str()) {
            kept.push(lines[i].clone());
            assert(views(kept@) =~= code_lines(views(lines@).take(i as int)).push(lines@[i as int]@));
        }
        i = i + 1;
    }
    assert(views(lines@).take(lines@.len() as int) =~= views(lines@));
    let joined = join(kept.as_slice(), "\n");
    trim(joined.as_str())
}

/// The statements of a migration script, in order.
pub fn migration_statements(sql: &str) -> (r: Vec<String>)
    ensures
        views(r@) == migration_statements_spec(sql@),
{
    let pieces = split(sql, ';');
    let mut out: Vec<String> = Vec::new();
    let mut i: usize = 0;
    assert(views(pieces@).take(0) =~= Seq::<Seq<char>>::empty());
    assert(views(out@) =~= Seq::<Seq<char>>::empty());
    while i < pieces.len()
        invariant
            i <= pieces@.len(),
            views(pieces@) == split_spec(sql@, ';'),
            views(out@) == statements_spec(views(pieces@).take(i as int)),
        decreases pieces.len() - i,
    {
        assert(views(pieces@).take(i + 1).drop_last() =~= views(pieces@).take(i as int));
        assert(views(pieces@).take(i + 1).last() == pieces@[i as int]@);
        let mut t = statement_of(pieces[i].as_str());
        if !t.as_str().is_empty() {
            let ghost before = t@;
            push_str(&mut t, ";");
            out.push(t);
            assert(views(out@) =~= statements_spec(views(pieces@).take(i as int)).push(
                before + ";"@,
            ));
        }
        i = i + 1;
    }
    assert(views(pieces@).take(pieces@.len() as int) =~= views(pieces@));
    out
}

/// An error that does not stop a migration: the object already exists.
pub open spec fn ignorable_error(e: Seq<char>) -> bool {
    exists|i: int| occurs_at(e, "already exists"@, i)
}

/// Whether a failed statement may be passed over.
pub fn is_ignorable_error(e: &str) -> (r: bool)
    ensures
        r == ignorable_error(e@),
{
    contains(e, "already exists")
}

/// The next move of a migration.
pub enum MigrationStep {
    Execute(SqlQuery),
    Finished,
    Failed(String),
}

/// A migration in progress: its statements, and how many have been sent.
pub struct MigrationRun {
    pub statements: Vec<String>,
    pub issued: usize,
}

/// The statement with no parameters.
pub fn statement_query(s: &String) -> (q: SqlQuery)
    ensures
        q.sql@ == s@,
        q.params@.len() == 0,
{
    SqlQuery { sql: s.clone(), params: Vec::new() }
}

impl MigrationRun {
    /// Starts a migration of the script `sql`: its first statement, or the end
    /// when it has none.
    pub fn start(sql: &str) -> (r: (MigrationRun, MigrationStep))
        ensures
            views(r.0.statements@) == migration_statements_spec(sql@),
            if r.0.statements@.len() == 0 {
                r.0.issued == 0 && r.1 is Finished
            } else {
                r.0.issued == 1 && (r.1 matches MigrationStep::Execute(q) && q.sql@
                    == r.0.statements@[0]@ && q.params@.len() == 0)
            },
    {
        let statements = migration_statements(sql);
        if statements.len() == 0 {
            (MigrationRun { statements, issued: 0 }, MigrationStep::Finished)
        } else {
            let q = statement_query(&statements[0]);
            (MigrationRun { statements, issued: 1 }, MigrationStep::Execute(q))
        }
    }

    /// Takes the outcome of the last statement: a failure stops the migration
    /// unless the object already existed; otherwise the next statement is
    /// sent, or the migration is complete.
    pub fn resume(&mut self, outcome: Result<(), String>) -> (r: MigrationStep)
        requires
            1 <= old(self).issued <= old(self).statements@.len(),
        ensures
            final(self).statements == old(self).statements,
            match outcome {
                Err(e) if !ignorable_error(e@) => r matches MigrationStep::Failed(m) && m@ == e@
                    && final(self).issued == old(self).issued,
                _ => if old(self).issued < old(self).statements@.len() {
                    final(self).issued == old(self).issued + 1 && (r matches MigrationStep::Execute(
                        q,
                    ) && q.sql@ == old(self).statements@[old(self).issued as int]@
                        && q.params@.len() == 0)
                } else {
                    final(self).issued == old(self).issued && r is Finished
                },
            },
    {
        match outcome {
            Err(e) => {
                if !is_ignorable_error(e.as_str()) {
                    return MigrationStep::Failed(e);
                }
            },
            Ok(()) => {},
        }
        if self.issued < self.statements.len() {
            let q = statement_query(&self.statements[self.issued]);
            self.issued = self.issued + 1;
            MigrationStep::Execute(q)
        } else {
            MigrationStep::Finished
        }
    }
}

} // verus!
