//! The boundary operations.  Each one resolves the dialect descriptor,
//! reports the unsupported-dialect error for an unrecognized tag, and
//! otherwise normalizes the raw outcome of the backend call into the uniform
//! envelope.  The backend call itself is I/O performed by the caller, who
//! hands its raw outcome in; every function here is verified for every value
//! that outcome may take.

use vstd::prelude::*;

use crate::dialect::is_supported_dialect;
use crate::payload::DialectPayload;
use crate::payload::descriptor_ok;
use crate::payload::supported_dialect;
use crate::response::ArrowResponse;
use crate::response::Metadata;
use crate::response::RawData;
use crate::response::TreeNode;
use crate::response::is_response_of;
use crate::response::is_windowed_response_of;
use crate::response::lemma_window_is_contiguous_subsequence;
use crate::response::take_window;
use crate::response::window;
use crate::strutil::concat_str;

verus! {

/// The error reported for an unrecognized dialect tag.
pub open spec fn plain_unsupported_msg() -> Seq<char> {
    "not support dialect"@
}

/// The variant of the error that names the offending tag.
pub open spec fn tagged_unsupported_msg(tag: Seq<char>) -> Seq<char> {
    "not support dialect "@ + tag
}

/// An operation refuses an unrecognized dialect tag with the plain
/// unsupported-dialect error — whatever else it was handed.
pub open spec fn rejects_unsupported_plain<T>(dialect: DialectPayload, r: Result<T, String>) -> bool {
    !supported_dialect(dialect.dialect@) ==> (r matches Err(m) && m@ == plain_unsupported_msg())
}

/// An operation refuses an unrecognized dialect tag with the
/// unsupported-dialect error naming the tag — whatever else it was handed.
pub open spec fn rejects_unsupported_tagged<T>(dialect: DialectPayload, r: Result<T, String>) -> bool {
    !supported_dialect(dialect.dialect@) ==> (r matches Err(m) && m@ == tagged_unsupported_msg(
        dialect.dialect@,
    ))
}

/// The page size a paged query falls back to when no limit was requested:
/// a fixed, deterministic bound, never "everything" unless the caller asks
/// for it explicitly.
pub const DEFAULT_PAGE_LIMIT: usize = 500;

/// The limit a paged query applies: the requested one, or the fixed default
/// bound when none was requested.
pub open spec fn paged_limit(limit: Option<usize>) -> int {
    match limit {
        Some(x) => x as int,
        None => DEFAULT_PAGE_LIMIT as int,
    }
}

/// The offset a paged query applies: the requested one, or zero.
pub open spec fn paged_offset(offset: Option<usize>) -> int {
    match offset {
        Some(x) => x as int,
        None => 0,
    }
}

/// What `query` returns: the windowed, normalized outcome for a supported
/// dialect, the plain unsupported-dialect error otherwise.
pub open spec fn query_post(
    limit: usize,
    offset: usize,
    dialect: DialectPayload,
    outcome: Result<RawData, String>,
    elapsed_ms: u64,
    r: Result<ArrowResponse, String>,
) -> bool {
    if supported_dialect(dialect.dialect@) {
        r matches Ok(resp) && is_windowed_response_of(
            outcome,
            limit as int,
            offset as int,
            Some(elapsed_ms),
            resp,
        )
    } else {
        r matches Err(m) && m@ == plain_unsupported_msg()
    }
}

/// What `paging_query` returns; an omitted limit defaults to the fixed
/// page size and an omitted offset to zero.
pub open spec fn paging_query_post(
    limit: Option<usize>,
    offset: Option<usize>,
    dialect: DialectPayload,
    outcome: Result<RawData, String>,
    elapsed_ms: u64,
    r: Result<ArrowResponse, String>,
) -> bool {
    if supported_dialect(dialect.dialect@) {
        r matches Ok(resp) && (match outcome {
            Ok(d) => is_windowed_response_of(
                Ok(d),
                paged_limit(limit),
                paged_offset(offset),
                Some(elapsed_ms),
                resp,
            ),
            Err(e) => is_response_of(Err(e), Some(elapsed_ms), resp),
        })
    } else {
        r matches Err(m) && m@ == plain_unsupported_msg()
    }
}

/// What `query_table` returns: as `query`, but the unsupported-dialect
/// error names the tag.
pub open spec fn query_table_post(
    limit: usize,
    offset: usize,
    dialect: DialectPayload,
    outcome: Result<RawData, String>,
    elapsed_ms: u64,
    r: Result<ArrowResponse, String>,
) -> bool {
    if supported_dialect(dialect.dialect@) {
        r matches Ok(resp) && is_windowed_response_of(
            outcome,
            limit as int,
            offset as int,
            Some(elapsed_ms),
            resp,
        )
    } else {
        r matches Err(m) && m@ == tagged_unsupported_msg(dialect.dialect@)
    }
}

/// What `table_row_count` returns: the backend's count or its error,
/// verbatim, for a supported dialect.  A missing count is never substituted
/// with zero.
pub open spec fn table_row_count_post(
    dialect: DialectPayload,
    outcome: Result<usize, String>,
    r: Result<usize, String>,
) -> bool {
    if supported_dialect(dialect.dialect@) {
        r == outcome
    } else {
        r matches Err(m) && m@ == plain_unsupported_msg()
    }
}

/// What `export` returns: the backend's success or failure, verbatim, for a
/// supported dialect.  A partial-write failure is reported, never swallowed.
pub open spec fn export_post(
    dialect: DialectPayload,
    outcome: Result<(), String>,
    r: Result<(), String>,
) -> bool {
    if supported_dialect(dialect.dialect@) {
        r == outcome
    } else {
        r matches Err(m) && m@ == plain_unsupported_msg()
    }
}

/// What `get_db` returns: the backend's schema tree or its error, verbatim,
/// for a supported dialect.
pub open spec fn get_db_post(
    dialect: DialectPayload,
    outcome: Result<TreeNode, String>,
    r: Result<TreeNode, String>,
) -> bool {
    if supported_dialect(dialect.dialect@) {
        r == outcome
    } else {
        r matches Err(m) && m@ == plain_unsupported_msg()
    }
}

/// What the untimed columnar operations (`show_schema`, `show_column`,
/// `find`) return: the normalized outcome without elapsed time for a
/// supported dialect, the tagged unsupported-dialect error otherwise.
pub open spec fn untimed_post(
    dialect: DialectPayload,
    outcome: Result<RawData, String>,
    r: Result<ArrowResponse, String>,
) -> bool {
    if supported_dialect(dialect.dialect@) {
        r matches Ok(resp) && is_response_of(outcome, None, resp)
    } else {
        r matches Err(m) && m@ == tagged_unsupported_msg(dialect.dialect@)
    }
}

/// What `drop_table` returns: the backend's confirmation or its exact
/// error, verbatim, for a supported dialect.  A failed drop is never masked
/// as success.
pub open spec fn drop_table_post(
    dialect: DialectPayload,
    outcome: Result<String, String>,
    r: Result<String, String>,
) -> bool {
    if supported_dialect(dialect.dialect@) {
        r == outcome
    } else {
        r matches Err(m) && m@ == tagged_unsupported_msg(dialect.dialect@)
    }
}

/// What `all_columns` returns: the metadata set for a supported dialect,
/// with a backend failure surfaced verbatim, kept distinct from the
/// unsupported-dialect error.
pub open spec fn all_columns_post(
    dialect: DialectPayload,
    outcome: Result<Vec<Metadata>, String>,
    r: Result<Vec<Metadata>, String>,
) -> bool {
    if supported_dialect(dialect.dialect@) {
        r == outcome
    } else {
        r matches Err(m) && m@ == tagged_unsupported_msg(dialect.dialect@)
    }
}

/// Narrows a successful outcome's rows to the limit/offset window; an error
/// passes through untouched.
fn apply_window(outcome: Result<RawData, String>, limit: usize, offset: usize) -> (r: Result<
    RawData,
    String,
>)
    ensures
        match outcome {
            Ok(d) => r matches Ok(p) && p.titles == d.titles && p.rows@ == window(
                d.rows@,
                limit as int,
                offset as int,
            ),
            Err(e) => r == Err::<RawData, String>(e),
        },
{
    match outcome {
        Ok(d) => Ok(RawData { titles: d.titles, rows: take_window(d.rows, limit, offset) }),
        Err(e) => Err(e),
    }
}

/// Executes a raw query's outcome into the envelope: skip `offset` rows of
/// the full result, take up to `limit`, and attach the elapsed time.
pub fn query(
    limit: usize,
    offset: usize,
    dialect: DialectPayload,
    outcome: Result<RawData, String>,
    elapsed_ms: u64,
) -> (r: Result<ArrowResponse, String>)
    requires
        descriptor_ok(dialect),
    ensures
        query_post(limit, offset, dialect, outcome, elapsed_ms, r),
        rejects_unsupported_plain(dialect, r),
{
    if is_supported_dialect(dialect.dialect.as_str()) {
        let windowed = apply_window(outcome, limit, offset);
        Ok(ArrowResponse::from_raw_data(windowed, Some(elapsed_ms)))
    } else {
        Err("not support dialect".to_owned())
    }
}

/// As `query`, with optional limit and offset: an omitted offset defaults
/// to zero and an omitted limit to the fixed page size
/// [`DEFAULT_PAGE_LIMIT`], so the defaults are deterministic and bounded.
pub fn paging_query(
    limit: Option<usize>,
    offset: Option<usize>,
    dialect: DialectPayload,
    outcome: Result<RawData, String>,
    elapsed_ms: u64,
) -> (r: Result<ArrowResponse, String>)
    requires
        descriptor_ok(dialect),
    ensures
        paging_query_post(limit, offset, dialect, outcome, elapsed_ms, r),
        rejects_unsupported_plain(dialect, r),
{
    if is_supported_dialect(dialect.dialect.as_str()) {
        let l: usize = match limit {
            Some(x) => x,
            None => DEFAULT_PAGE_LIMIT,
        };
        let o: usize = match offset {
            Some(x) => x,
            None => 0,
        };
        let windowed = apply_window(outcome, l, o);
        Ok(ArrowResponse::from_raw_data(windowed, Some(elapsed_ms)))
    } else {
        Err("not support dialect".to_owned())
    }
}

/// Executes a one-table query's outcome into the envelope, with the same
/// window semantics as `query`; the select text itself comes from
/// [`crate::sql::table_select_sql`].
pub fn query_table(
    limit: usize,
    offset: usize,
    dialect: DialectPayload,
    outcome: Result<RawData, String>,
    elapsed_ms: u64,
) -> (r: Result<ArrowResponse, String>)
    requires
        descriptor_ok(dialect),
    ensures
        query_table_post(limit, offset, dialect, outcome, elapsed_ms, r),
        rejects_unsupported_tagged(dialect, r),
{
    if is_supported_dialect(dialect.dialect.as_str()) {
        let windowed = apply_window(outcome, limit, offset);
        Ok(ArrowResponse::from_raw_data(windowed, Some(elapsed_ms)))
    } else {
        Err(concat_str("not support dialect ", dialect.dialect.as_str()))
    }
}

/// Reports the backend's row count for one table, or its error, verbatim.
pub fn table_row_count(dialect: DialectPayload, outcome: Result<usize, String>) -> (r: Result<
    usize,
    String,
>)
    requires
        descriptor_ok(dialect),
    ensures
        table_row_count_post(dialect, outcome, r),
        rejects_unsupported_plain(dialect, r),
{
    if is_supported_dialect(dialect.dialect.as_str()) {
        outcome
    } else {
        Err("not support dialect".to_owned())
    }
}

/// Reports an export's success or failure, verbatim: a partial write is an
/// error the caller sees, never a silent success.
pub fn export(dialect: DialectPayload, outcome: Result<(), String>) -> (r: Result<(), String>)
    requires
        descriptor_ok(dialect),
    ensures
        export_post(dialect, outcome, r),
        rejects_unsupported_plain(dialect, r),
{
    if is_supported_dialect(dialect.dialect.as_str()) {
        outcome
    } else {
        Err("not support dialect".to_owned())
    }
}

/// Reports the backend's navigable hierarchy, or its error, verbatim.
pub fn get_db(dialect: DialectPayload, outcome: Result<TreeNode, String>) -> (r: Result<
    TreeNode,
    String,
>)
    requires
        descriptor_ok(dialect),
    ensures
        get_db_post(dialect, outcome, r),
        rejects_unsupported_plain(dialect, r),
{
    if is_supported_dialect(dialect.dialect.as_str()) {
        outcome
    } else {
        Err("not support dialect".to_owned())
    }
}

/// Lists the objects within one schema.  An introspection operation: no
/// elapsed time is attached.
pub fn show_schema(dialect: DialectPayload, outcome: Result<RawData, String>) -> (r: Result<
    ArrowResponse,
    String,
>)
    requires
        descriptor_ok(dialect),
    ensures
        untimed_post(dialect, outcome, r),
        rejects_unsupported_tagged(dialect, r),
{
    if is_supported_dialect(dialect.dialect.as_str()) {
        Ok(ArrowResponse::from_raw_data(outcome, None))
    } else {
        Err(concat_str("not support dialect ", dialect.dialect.as_str()))
    }
}

/// Lists one table's column metadata.  An introspection operation: no
/// elapsed time is attached.
pub fn show_column(dialect: DialectPayload, outcome: Result<RawData, String>) -> (r: Result<
    ArrowResponse,
    String,
>)
    requires
        descriptor_ok(dialect),
    ensures
        untimed_post(dialect, outcome, r),
        rejects_unsupported_tagged(dialect, r),
{
    if is_supported_dialect(dialect.dialect.as_str()) {
        Ok(ArrowResponse::from_raw_data(outcome, None))
    } else {
        Err(concat_str("not support dialect ", dialect.dialect.as_str()))
    }
}

/// Reports a destructive drop's confirmation, or its exact error: the call
/// aborts on failure and never reports partial success.
pub fn drop_table(dialect: DialectPayload, outcome: Result<String, String>) -> (r: Result<
    String,
    String,
>)
    requires
        descriptor_ok(dialect),
    ensures
        drop_table_post(dialect, outcome, r),
        rejects_unsupported_tagged(dialect, r),
        match outcome {
            Err(e) => supported_dialect(dialect.dialect@) ==> (r matches Err(m) && m == e),
            Ok(_) => true,
        },
{
    if is_supported_dialect(dialect.dialect.as_str()) {
        outcome
    } else {
        Err(concat_str("not support dialect ", dialect.dialect.as_str()))
    }
}

/// Reports a backend-specific search's rows.  No elapsed time is attached.
pub fn find(dialect: DialectPayload, outcome: Result<RawData, String>) -> (r: Result<
    ArrowResponse,
    String,
>)
    requires
        descriptor_ok(dialect),
    ensures
        untimed_post(dialect, outcome, r),
        rejects_unsupported_tagged(dialect, r),
{
    if is_supported_dialect(dialect.dialect.as_str()) {
        Ok(ArrowResponse::from_raw_data(outcome, None))
    } else {
        Err(concat_str("not support dialect ", dialect.dialect.as_str()))
    }
}

/// Reports the column metadata aggregated across all accessible tables; a
/// backend that cannot enumerate them fails, and its message is reported
/// verbatim so the root cause stays diagnosable.
pub fn all_columns(dialect: DialectPayload, outcome: Result<Vec<Metadata>, String>) -> (r: Result<
    Vec<Metadata>,
    String,
>)
    requires
        descriptor_ok(dialect),
    ensures
        all_columns_post(dialect, outcome, r),
        rejects_unsupported_tagged(dialect, r),
{
    if is_supported_dialect(dialect.dialect.as_str()) {
        outcome
    } else {
        Err(concat_str("not support dialect ", dialect.dialect.as_str()))
    }
}

/// The extension of a destination name: the text after its last `.`, or
/// nothing when no `.` occurs in it.
pub open spec fn ext_of(s: Seq<char>) -> Option<Seq<char>>
    decreases s.len(),
{
    if s.len() == 0 {
        None
    } else if s[s.len() - 1] == '.' {
        Some(Seq::<char>::empty())
    } else {
        match ext_of(s.drop_last()) {
            Some(e) => Some(e.push(s[s.len() - 1])),
            None => None,
        }
    }
}

/// The format tag an export uses: the explicit one when given, else the
/// destination's extension after its last `.`, else the comma-separated
/// default when the destination has no extension.
pub open spec fn inferred_format(file: Seq<char>, format: Option<String>) -> Seq<char> {
    match format {
        Some(f) => f@,
        None => match ext_of(file) {
            Some(e) => e,
            None => "csv"@,
        },
    }
}

/// When the last `.` of `s` sits at index `k`, the extension is exactly
/// what follows it.
proof fn lemma_ext_after_last_dot(s: Seq<char>, k: int)
    requires
        0 <= k < s.len(),
        s[k] == '.',
        forall|j: int| k < j < s.len() ==> s[j] != '.',
    ensures
        ext_of(s) == Some(s.subrange(k + 1, s.len() as int)),
    decreases s.len(),
{
    if k == s.len() - 1 {
        assert(s.subrange(k + 1, s.len() as int) =~= Seq::<char>::empty());
    } else {
        let t = s.drop_last();
        assert(forall|j: int| k < j < t.len() ==> t[j] == s[j]);
        lemma_ext_after_last_dot(t, k);
        assert(t.subrange(k + 1, t.len() as int).push(s[s.len() - 1]) =~= s.subrange(
            k + 1,
            s.len() as int,
        ));
    }
}

/// A text without any `.` has no extension.
proof fn lemma_ext_none(s: Seq<char>)
    requires
        forall|j: int| 0 <= j < s.len() ==> s[j] != '.',
    ensures
        ext_of(s) is None,
    decreases s.len(),
{
    if s.len() > 0 {
        lemma_ext_none(s.drop_last());
    }
}

/// Picks the format tag an export writes: the explicit tag when one is
/// given; otherwise the destination's extension after its last `.`; and the
/// comma-separated default, `csv`, when the destination has no extension.
pub fn export_format(file: &str, format: Option<String>) -> (r: String)
    ensures
        r@ == inferred_format(file@, format),
{
    if format.is_some() {
        return format.unwrap();
    }
    let n: usize = file.unicode_len();
    let mut i: usize = n;
    while i > 0
        invariant
            format is None,
            i <= n,
            n == file@.len(),
            forall|j: int| i <= j < n ==> file@[j] != '.',
        decreases i,
    {
        let c: char = file.get_char(i - 1);
        if c == '.' {
            let ext = file.substring_char(i, n);
            proof {
                lemma_ext_after_last_dot(file@, i - 1);
            }
            return ext.to_owned();
        }
        i = i - 1;
    }
    proof {
        lemma_ext_none(file@);
    }
    "csv".to_owned()
}

/// Relies on `sqlformat::format` with its default options and no query
/// parameters: pretty-prints the SQL text; the result is a function of the
/// text alone and the call always returns one.
#[verifier::external_body]
pub fn format_sql(sql: &str) -> (r: Result<String, String>)
    ensures
        r is Ok,
        r matches Ok(f) ==> f@ == formatted_sql(sql@),
{
    let params = sqlformat::QueryParams::default();
    let options = sqlformat::FormatOptions::default();
    Ok(sqlformat::format(sql, &params, &options))
}

/// The text `sqlformat::format` returns for a query under its default
/// options.
pub uninterp spec fn formatted_sql(sql: Seq<char>) -> Seq<char>;

/// A paged query returns a contiguous window of the full result: against
/// the same successful backend outcome, `paging_query` with limit `l` and
/// offset `o` returns exactly the rows of the unbounded `query` result from
/// row `o` on, at most `l` of them.
pub proof fn lemma_paging_query_is_window_of_query(
    dialect: DialectPayload,
    d: RawData,
    l: usize,
    o: usize,
    e1: u64,
    e2: u64,
    paged_r: Result<ArrowResponse, String>,
    full_r: Result<ArrowResponse, String>,
)
    requires
        supported_dialect(dialect.dialect@),
        paging_query_post(Some(l), Some(o), dialect, Ok(d), e1, paged_r),
        query_post(usize::MAX, 0, dialect, Ok(d), e2, full_r),
    ensures
        paged_r matches Ok(p) && full_r matches Ok(f) && p.rows@ == f.rows@.subrange(
            if o < f.rows@.len() { o as int } else { f.rows@.len() as int },
            if o + l < f.rows@.len() { o + l } else { f.rows@.len() as int },
        ) && p.rows@.len() <= l,
{
    assert(d.rows.len() == d.rows@.len());
    let full = window(d.rows@, usize::MAX as int, 0);
    assert(full =~= d.rows@);
    lemma_window_is_contiguous_subsequence(d.rows@, l as int, o as int);
}

/// Counting is consistent with querying everything: when the backend's
/// count event and its full-table event describe the same table state, the
/// count `table_row_count` reports with an unconditional filter equals the
/// number of rows `query_table` returns with an unbounded window.
pub proof fn lemma_row_count_matches_unbounded_query_table(
    dialect: DialectPayload,
    n: usize,
    d: RawData,
    elapsed_ms: u64,
    count_r: Result<usize, String>,
    table_r: Result<ArrowResponse, String>,
)
    requires
        supported_dialect(dialect.dialect@),
        n == d.rows@.len(),
        table_row_count_post(dialect, Ok(n), count_r),
        query_table_post(usize::MAX, 0, dialect, Ok(d), elapsed_ms, table_r),
    ensures
        count_r matches Ok(c) && table_r matches Ok(resp) && c == resp.rows@.len(),
{
    assert(d.rows.len() == d.rows@.len());
    assert(window(d.rows@, usize::MAX as int, 0) =~= d.rows@);
}

} // verus!
