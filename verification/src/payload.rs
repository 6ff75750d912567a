//! The dialect descriptor: which backend a request targets and the
//! connection parameters it carries.

use vstd::prelude::*;

verus! {

/// An inert record describing one backend target.  Which fields are required
/// depends on the dialect tag: file-backed dialects need `path`, networked
/// engines need `host` (and, for `mysql` and `postgres`, `port`).  Absent
/// optional fields default to empty or stay unset; they are never guessed.
#[derive(Debug, Clone)]
pub struct DialectPayload {
    pub dialect: String,
    pub path: Option<String>,
    pub username: Option<String>,
    pub password: Option<String>,
    pub host: Option<String>,
    pub port: Option<String>,
    pub database: Option<String>,
    pub cwd: Option<String>,
}

impl Default for DialectPayload {
    /// The empty descriptor: an empty dialect tag and no parameters.
    fn default() -> (r: Self)
        ensures
            r.dialect@ == Seq::<char>::empty(),
            r.path is None,
            r.username is None,
            r.password is None,
            r.host is None,
            r.port is None,
            r.database is None,
            r.cwd is None,
    {
        DialectPayload {
            dialect: String::new(),
            path: None,
            username: None,
            password: None,
            host: None,
            port: None,
            database: None,
            cwd: None,
        }
    }
}

/// The dialect tags the factory recognizes.  Anything else is reported as an
/// unsupported dialect, never mapped to a fallback backend.
pub open spec fn supported_dialect(tag: Seq<char>) -> bool {
    ||| tag == "folder"@
    ||| tag == "file"@
    ||| tag == "duckdb"@
    ||| tag == "sqlite"@
    ||| tag == "clickhouse"@
    ||| tag == "clickhouse_tcp"@
    ||| tag == "mysql"@
    ||| tag == "postgres"@
}

/// The file-backed dialects, for which `path` is required.
pub open spec fn path_dialect(tag: Seq<char>) -> bool {
    ||| tag == "folder"@
    ||| tag == "file"@
    ||| tag == "duckdb"@
    ||| tag == "sqlite"@
}

/// The networked dialects, for which `host` is required.
pub open spec fn host_dialect(tag: Seq<char>) -> bool {
    ||| tag == "clickhouse"@
    ||| tag == "clickhouse_tcp"@
    ||| tag == "mysql"@
    ||| tag == "postgres"@
}

/// The dialects for which `port` is required as well.
pub open spec fn port_dialect(tag: Seq<char>) -> bool {
    ||| tag == "mysql"@
    ||| tag == "postgres"@
}

/// A field that the descriptor's own dialect requires is absent: the
/// descriptor is malformed, a condition distinct from "unsupported dialect".
pub open spec fn missing_required(p: DialectPayload) -> bool {
    ||| (path_dialect(p.dialect@) && p.path is None)
    ||| (host_dialect(p.dialect@) && p.host is None)
    ||| (port_dialect(p.dialect@) && p.port is None)
}

/// A descriptor on which the operations may be invoked: if its dialect is
/// supported, every field that dialect requires is present.
pub open spec fn descriptor_ok(p: DialectPayload) -> bool {
    !missing_required(p)
}

/// The view of an optional string field, with absence reading as empty.
pub open spec fn or_empty(o: Option<String>) -> Seq<char> {
    match o {
        Some(s) => s@,
        None => Seq::<char>::empty(),
    }
}

} // verus!
