//! The columnar response envelope and the normalization of raw backend
//! outcomes into it, including the row-window (limit/offset) semantics.

use vstd::prelude::*;

verus! {

/// A raw columnar result as a backend hands it back: the column titles and
/// the rows, each row one cell per column.
#[derive(Debug, Clone)]
pub struct RawData {
    pub titles: Vec<String>,
    pub rows: Vec<Vec<String>>,
}

/// The uniform response envelope every operation returns: the columnar data
/// (empty on error), the backend's error message ("" on success, preserved
/// verbatim on failure), and the elapsed wall-clock time in whole
/// milliseconds for the operations that time raw execution.
#[derive(Debug, Clone)]
pub struct ArrowResponse {
    pub titles: Vec<String>,
    pub rows: Vec<Vec<String>>,
    pub message: String,
    pub elapsed_ms: Option<u64>,
}

/// One node of a backend's navigable hierarchy (database, schema, table, or
/// folder and file), with its children when it has any.
#[derive(Debug)]
pub struct TreeNode {
    pub name: String,
    pub path: String,
    pub node_type: String,
    pub children: Option<Vec<TreeNode>>,
}

/// One column's metadata: the table it belongs to, the column name, and the
/// backend-reported type.
#[derive(Debug, Clone)]
pub struct Metadata {
    pub table: String,
    pub name: String,
    pub data_type: String,
}

/// The window of `rows` that "skip `offset` rows, then take up to `limit`"
/// selects.
pub open spec fn window(rows: Seq<Vec<String>>, limit: int, offset: int) -> Seq<Vec<String>> {
    let n = rows.len() as int;
    let start = if offset < n { offset } else { n };
    let end = if start + limit < n { start + limit } else { n };
    rows.subrange(start, end)
}

/// What the envelope holds for a given raw outcome: on success the raw data
/// unchanged and an empty message, on failure empty data and the backend's
/// message verbatim; the elapsed time is attached as supplied either way.
pub open spec fn is_response_of(
    raw: Result<RawData, String>,
    elapsed_ms: Option<u64>,
    r: ArrowResponse,
) -> bool {
    match raw {
        Ok(d) => {
            &&& r.titles == d.titles
            &&& r.rows == d.rows
            &&& r.message@ == Seq::<char>::empty()
            &&& r.elapsed_ms == elapsed_ms
        },
        Err(e) => {
            &&& r.titles@ == Seq::<String>::empty()
            &&& r.rows@ == Seq::<Vec<String>>::empty()
            &&& r.message == e
            &&& r.elapsed_ms == elapsed_ms
        },
    }
}

/// As [`is_response_of`], but with the rows of a successful outcome narrowed
/// to the limit/offset window.
pub open spec fn is_windowed_response_of(
    raw: Result<RawData, String>,
    limit: int,
    offset: int,
    elapsed_ms: Option<u64>,
    r: ArrowResponse,
) -> bool {
    match raw {
        Ok(d) => {
            &&& r.titles == d.titles
            &&& r.rows@ == window(d.rows@, limit, offset)
            &&& r.message@ == Seq::<char>::empty()
            &&& r.elapsed_ms == elapsed_ms
        },
        Err(e) => {
            &&& r.titles@ == Seq::<String>::empty()
            &&& r.rows@ == Seq::<Vec<String>>::empty()
            &&& r.message == e
            &&& r.elapsed_ms == elapsed_ms
        },
    }
}

/// Skips the first `offset` rows and keeps at most `limit` of the rest.
pub fn take_window(rows: Vec<Vec<String>>, limit: usize, offset: usize) -> (r: Vec<Vec<String>>)
    ensures
        r@ == window(rows@, limit as int, offset as int),
{
    let n: usize = rows.len();
    let at: usize = if offset < n {
        offset
    } else {
        n
    };
    let mut head = rows;
    let mut tail = head.split_off(at);
    tail.truncate(limit);
    tail
}

impl ArrowResponse {
    /// Wraps a raw backend outcome (or its error) into the envelope,
    /// attaching the elapsed time when one is supplied.  A backend failure is
    /// conveyed in the envelope's message, never raised past this boundary
    /// and never downgraded to an empty success.
    pub fn from_raw_data(raw: Result<RawData, String>, elapsed_ms: Option<u64>) -> (r:
        ArrowResponse)
        ensures
            is_response_of(raw, elapsed_ms, r),
    {
        match raw {
            Ok(d) => ArrowResponse {
                titles: d.titles,
                rows: d.rows,
                message: String::new(),
                elapsed_ms,
            },
            Err(e) => ArrowResponse {
                titles: Vec::new(),
                rows: Vec::new(),
                message: e,
                elapsed_ms,
            },
        }
    }
}

/// The limit/offset window is a contiguous subsequence of the full result:
/// it starts at row `offset` (clipped to the end) and has at most `limit`
/// rows, and with an unbounded window the full result comes back unchanged.
pub proof fn lemma_window_is_contiguous_subsequence(rows: Seq<Vec<String>>, limit: int, offset: int)
    requires
        0 <= limit,
        0 <= offset,
    ensures
        window(rows, limit, offset) == rows.subrange(
            if offset < rows.len() { offset } else { rows.len() as int },
            if offset + limit < rows.len() { offset + limit } else { rows.len() as int },
        ),
        window(rows, limit, offset).len() <= limit,
        offset < rows.len() ==> forall|i: int|
            0 <= i < window(rows, limit, offset).len() ==> window(rows, limit, offset)[i] == rows[offset + i],
        rows.len() <= limit && offset == 0 ==> window(rows, limit, offset) == rows,
{
    if rows.len() <= limit && offset == 0 {
        assert(window(rows, limit, offset) =~= rows);
    }
}

} // verus!
