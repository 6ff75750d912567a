//! Dialect resolution: the grammar selector and the connection factory.

use vstd::prelude::*;

use crate::payload::DialectPayload;
use crate::payload::host_dialect;
use crate::payload::missing_required;
use crate::payload::or_empty;
use crate::payload::path_dialect;
use crate::payload::port_dialect;
use crate::payload::supported_dialect;
use crate::strutil::str_eq;

verus! {

/// The SQL grammar variant used for parsing and formatting assistance.
/// Advisory only: an unknown tag degrades to the generic grammar instead of
/// erroring, because execution correctness never depends on this choice.
#[derive(Debug, Clone, Copy, PartialEq, Eq, Structural)]
pub enum AstDialect {
    DuckDb,
    ClickHouse,
    MySql,
    PostgreSql,
    Generic,
}

/// The grammar variant a dialect tag maps to.
pub open spec fn ast_dialect_of(tag: Seq<char>) -> AstDialect {
    if tag == "folder"@ || tag == "file"@ || tag == "duckdb"@ {
        AstDialect::DuckDb
    } else if tag == "clickhouse_tcp"@ {
        AstDialect::ClickHouse
    } else if tag == "mysql"@ {
        AstDialect::MySql
    } else if tag == "postgres"@ {
        AstDialect::PostgreSql
    } else {
        AstDialect::Generic
    }
}

/// Maps a dialect tag to the SQL grammar variant used for parsing and
/// formatting the query text.  Pure; no failure mode.
pub fn get_ast_dialect(dialect: &str) -> (r: AstDialect)
    ensures
        r == ast_dialect_of(dialect@),
{
    if str_eq(dialect, "folder") || str_eq(dialect, "file") || str_eq(dialect, "duckdb") {
        AstDialect::DuckDb
    } else if str_eq(dialect, "clickhouse_tcp") {
        AstDialect::ClickHouse
    } else if str_eq(dialect, "mysql") {
        AstDialect::MySql
    } else if str_eq(dialect, "postgres") {
        AstDialect::PostgreSql
    } else {
        AstDialect::Generic
    }
}

/// Whether the tag names one of the dialects the factory recognizes.
pub fn is_supported_dialect(tag: &str) -> (r: bool)
    ensures
        r == supported_dialect(tag@),
{
    str_eq(tag, "folder") || str_eq(tag, "file") || str_eq(tag, "duckdb") || str_eq(tag, "sqlite")
        || str_eq(tag, "clickhouse") || str_eq(tag, "clickhouse_tcp") || str_eq(tag, "mysql")
        || str_eq(tag, "postgres")
}

/// A per-call backend handle: one variant per supported dialect, each
/// capturing exactly the parameters its backend needs.  Constructing one
/// performs no I/O; a failed backend handshake is reported by the operation,
/// never by resolution.
#[derive(Debug, Clone)]
pub enum Connection {
    Folder { path: String, cwd: Option<String> },
    File { path: String },
    DuckDb { path: String, cwd: Option<String> },
    Sqlite { path: String },
    Clickhouse {
        host: String,
        port: String,
        username: String,
        password: String,
        database: Option<String>,
    },
    ClickhouseTcp {
        host: String,
        port: String,
        username: String,
        password: String,
        database: Option<String>,
    },
    MySql {
        host: String,
        port: String,
        username: String,
        password: String,
        database: Option<String>,
    },
    Postgres {
        host: String,
        port: String,
        username: String,
        password: String,
        database: Option<String>,
    },
}

/// Why the factory declined to build a connection.
#[derive(Debug, Clone, Copy, PartialEq, Eq, Structural)]
pub enum FactoryError {
    /// The dialect tag is not recognized.  Recoverable: the caller reports it.
    Unsupported,
    /// The dialect is recognized but a field it requires is absent: the
    /// request is malformed, which is distinct from "unsupported".
    MissingField,
}

/// The connection the factory owes a well-formed descriptor: the variant
/// matching the tag, holding the descriptor's parameters, with the optional
/// credentials defaulting to empty when absent.
pub open spec fn resolves_to(p: DialectPayload, c: Connection) -> bool {
    if p.dialect@ == "folder"@ {
        c matches Connection::Folder { path, cwd } && Some(path) == p.path && cwd == p.cwd
    } else if p.dialect@ == "file"@ {
        c matches Connection::File { path } && Some(path) == p.path
    } else if p.dialect@ == "duckdb"@ {
        c matches Connection::DuckDb { path, cwd } && Some(path) == p.path && cwd == p.cwd
    } else if p.dialect@ == "sqlite"@ {
        c matches Connection::Sqlite { path } && Some(path) == p.path
    } else if p.dialect@ == "clickhouse"@ {
        c matches Connection::Clickhouse { host, port, username, password, database }
            && Some(host) == p.host && port@ == or_empty(p.port)
            && username@ == or_empty(p.username) && password@ == or_empty(p.password)
            && database == p.database
    } else if p.dialect@ == "clickhouse_tcp"@ {
        c matches Connection::ClickhouseTcp { host, port, username, password, database }
            && Some(host) == p.host && port@ == or_empty(p.port)
            && username@ == or_empty(p.username) && password@ == or_empty(p.password)
            && database == p.database
    } else if p.dialect@ == "mysql"@ {
        c matches Connection::MySql { host, port, username, password, database }
            && Some(host) == p.host && Some(port) == p.port
            && username@ == or_empty(p.username) && password@ == or_empty(p.password)
            && database == p.database
    } else if p.dialect@ == "postgres"@ {
        c matches Connection::Postgres { host, port, username, password, database }
            && Some(host) == p.host && Some(port) == p.port
            && username@ == or_empty(p.username) && password@ == or_empty(p.password)
            && database == p.database
    } else {
        false
    }
}

/// What the factory returns on each class of descriptor.
pub open spec fn get_dialect_post(p: DialectPayload, r: Result<Connection, FactoryError>) -> bool {
    if !supported_dialect(p.dialect@) {
        r matches Err(e) && e == FactoryError::Unsupported
    } else if missing_required(p) {
        r matches Err(e) && e == FactoryError::MissingField
    } else {
        r matches Ok(c) && resolves_to(p, c)
    }
}

/// Resolves a descriptor into a concrete backend handle.
///
/// Dispatch is an exact match on the dialect tag; an unrecognized tag is
/// reported as [`FactoryError::Unsupported`].  For a recognized tag with a
/// required field absent, construction fails fast with
/// [`FactoryError::MissingField`] — before any I/O, since resolution only
/// captures parameters and performs no backend handshake.
pub fn get_dialect(payload: DialectPayload) -> (r: Result<Connection, FactoryError>)
    ensures
        get_dialect_post(payload, r),
{
    proof {
        lemma_dialect_tags_distinct();
    }
    let DialectPayload { dialect, path, username, password, host, port, database, cwd } = payload;
    if str_eq(dialect.as_str(), "folder") {
        match path {
            Some(path) => Ok(Connection::Folder { path, cwd }),
            None => Err(FactoryError::MissingField),
        }
    } else if str_eq(dialect.as_str(), "file") {
        match path {
            Some(path) => Ok(Connection::File { path }),
            None => Err(FactoryError::MissingField),
        }
    } else if str_eq(dialect.as_str(), "duckdb") {
        match path {
            Some(path) => Ok(Connection::DuckDb { path, cwd }),
            None => Err(FactoryError::MissingField),
        }
    } else if str_eq(dialect.as_str(), "sqlite") {
        match path {
            Some(path) => Ok(Connection::Sqlite { path }),
            None => Err(FactoryError::MissingField),
        }
    } else if str_eq(dialect.as_str(), "clickhouse") {
        match host {
            Some(host) => Ok(Connection::Clickhouse {
                host,
                port: unwrap_or_empty(port),
                username: unwrap_or_empty(username),
                password: unwrap_or_empty(password),
                database,
            }),
            None => Err(FactoryError::MissingField),
        }
    } else if str_eq(dialect.as_str(), "clickhouse_tcp") {
        match host {
            Some(host) => Ok(Connection::ClickhouseTcp {
                host,
                port: unwrap_or_empty(port),
                username: unwrap_or_empty(username),
                password: unwrap_or_empty(password),
                database,
            }),
            None => Err(FactoryError::MissingField),
        }
    } else if str_eq(dialect.as_str(), "mysql") {
        match (host, port) {
            (Some(host), Some(port)) => Ok(Connection::MySql {
                host,
                port,
                username: unwrap_or_empty(username),
                password: unwrap_or_empty(password),
                database,
            }),
            _ => Err(FactoryError::MissingField),
        }
    } else if str_eq(dialect.as_str(), "postgres") {
        match (host, port) {
            (Some(host), Some(port)) => Ok(Connection::Postgres {
                host,
                port,
                username: unwrap_or_empty(username),
                password: unwrap_or_empty(password),
                database,
            }),
            _ => Err(FactoryError::MissingField),
        }
    } else {
        Err(FactoryError::Unsupported)
    }
}

/// The eight recognized dialect tags are pairwise distinct strings, so the
/// factory's exact-match dispatch reaches at most one arm.
pub proof fn lemma_dialect_tags_distinct()
    ensures
        "folder"@ != "file"@,
        "folder"@ != "duckdb"@,
        "folder"@ != "sqlite"@,
        "folder"@ != "clickhouse"@,
        "folder"@ != "clickhouse_tcp"@,
        "folder"@ != "mysql"@,
        "folder"@ != "postgres"@,
        "file"@ != "duckdb"@,
        "file"@ != "sqlite"@,
        "file"@ != "clickhouse"@,
        "file"@ != "clickhouse_tcp"@,
        "file"@ != "mysql"@,
        "file"@ != "postgres"@,
        "duckdb"@ != "sqlite"@,
        "duckdb"@ != "clickhouse"@,
        "duckdb"@ != "clickhouse_tcp"@,
        "duckdb"@ != "mysql"@,
        "duckdb"@ != "postgres"@,
        "sqlite"@ != "clickhouse"@,
        "sqlite"@ != "clickhouse_tcp"@,
        "sqlite"@ != "mysql"@,
        "sqlite"@ != "postgres"@,
        "clickhouse"@ != "clickhouse_tcp"@,
        "clickhouse"@ != "mysql"@,
        "clickhouse"@ != "postgres"@,
        "clickhouse_tcp"@ != "mysql"@,
        "clickhouse_tcp"@ != "postgres"@,
        "mysql"@ != "postgres"@,
{
    reveal_strlit("folder");
    reveal_strlit("file");
    reveal_strlit("duckdb");
    reveal_strlit("sqlite");
    reveal_strlit("clickhouse");
    reveal_strlit("clickhouse_tcp");
    reveal_strlit("mysql");
    reveal_strlit("postgres");
    assert("folder"@.len() == 6);
    assert("file"@.len() == 4);
    assert("duckdb"@.len() == 6);
    assert("sqlite"@.len() == 6);
    assert("clickhouse"@.len() == 10);
    assert("clickhouse_tcp"@.len() == 14);
    assert("mysql"@.len() == 5);
    assert("postgres"@.len() == 8);
    assert("folder"@[0] != "duckdb"@[0]);
    assert("folder"@[0] != "sqlite"@[0]);
    assert("duckdb"@[0] != "sqlite"@[0]);
}

/// The value of an optional credential field, defaulting to empty.
fn unwrap_or_empty(o: Option<String>) -> (r: String)
    ensures
        r@ == or_empty(o),
{
    match o {
        Some(s) => s,
        None => String::new(),
    }
}

} // verus!
