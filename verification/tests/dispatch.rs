use connector_core::AstDialect;
use connector_core::Connection;
use connector_core::DialectPayload;
use connector_core::FactoryError;
use connector_core::get_ast_dialect;
use connector_core::get_dialect;

fn payload(dialect: &str) -> DialectPayload {
    DialectPayload {
        dialect: dialect.to_string(),
        ..DialectPayload::default()
    }
}

#[test]
fn folder_resolves_with_path_and_cwd() {
    let mut p = payload("folder");
    p.path = Some("/data".to_string());
    p.cwd = Some("/tmp".to_string());
    match get_dialect(p) {
        Ok(Connection::Folder { path, cwd }) => {
            assert_eq!(path, "/data");
            assert_eq!(cwd, Some("/tmp".to_string()));
        }
        other => panic!("unexpected resolution: {:?}", other),
    }
}

#[test]
fn file_resolves_with_path() {
    let mut p = payload("file");
    p.path = Some("t.csv".to_string());
    match get_dialect(p) {
        Ok(Connection::File { path }) => assert_eq!(path, "t.csv"),
        other => panic!("unexpected resolution: {:?}", other),
    }
}

#[test]
fn duckdb_resolves_with_path() {
    let mut p = payload("duckdb");
    p.path = Some("db.duckdb".to_string());
    match get_dialect(p) {
        Ok(Connection::DuckDb { path, cwd }) => {
            assert_eq!(path, "db.duckdb");
            assert_eq!(cwd, None);
        }
        other => panic!("unexpected resolution: {:?}", other),
    }
}

#[test]
fn sqlite_resolves_with_path() {
    let mut p = payload("sqlite");
    p.path = Some("db.sqlite".to_string());
    match get_dialect(p) {
        Ok(Connection::Sqlite { path }) => assert_eq!(path, "db.sqlite"),
        other => panic!("unexpected resolution: {:?}", other),
    }
}

#[test]
fn clickhouse_defaults_absent_credentials_to_empty() {
    let mut p = payload("clickhouse");
    p.host = Some("localhost".to_string());
    match get_dialect(p) {
        Ok(Connection::Clickhouse { host, port, username, password, database }) => {
            assert_eq!(host, "localhost");
            assert_eq!(port, "");
            assert_eq!(username, "");
            assert_eq!(password, "");
            assert_eq!(database, None);
        }
        other => panic!("unexpected resolution: {:?}", other),
    }
}

#[test]
fn clickhouse_tcp_keeps_given_credentials() {
    let mut p = payload("clickhouse_tcp");
    p.host = Some("h".to_string());
    p.port = Some("9000".to_string());
    p.username = Some("u".to_string());
    p.password = Some("SECRET-REDACTED".to_string());
    p.database = Some("d".to_string());
    match get_dialect(p) {
        Ok(Connection::ClickhouseTcp { host, port, username, password, database }) => {
            assert_eq!(host, "h");
            assert_eq!(port, "9000");
            assert_eq!(username, "u");
            assert_eq!(password, "SECRET-REDACTED");
            assert_eq!(database, Some("d".to_string()));
        }
        other => panic!("unexpected resolution: {:?}", other),
    }
}

#[test]
fn mysql_resolves_with_host_and_port() {
    let mut p = payload("mysql");
    p.host = Some("h".to_string());
    p.port = Some("3306".to_string());
    match get_dialect(p) {
        Ok(Connection::MySql { host, port, .. }) => {
            assert_eq!(host, "h");
            assert_eq!(port, "3306");
        }
        other => panic!("unexpected resolution: {:?}", other),
    }
}

#[test]
fn postgres_resolves_with_host_and_port() {
    let mut p = payload("postgres");
    p.host = Some("h".to_string());
    p.port = Some("5432".to_string());
    match get_dialect(p) {
        Ok(Connection::Postgres { host, port, .. }) => {
            assert_eq!(host, "h");
            assert_eq!(port, "5432");
        }
        other => panic!("unexpected resolution: {:?}", other),
    }
}

#[test]
fn unknown_dialect_is_unsupported_not_a_fallback() {
    let r = get_dialect(payload("oracle"));
    assert!(matches!(r, Err(FactoryError::Unsupported)));
}

#[test]
fn empty_tag_is_unsupported() {
    let r = get_dialect(payload(""));
    assert!(matches!(r, Err(FactoryError::Unsupported)));
}

#[test]
fn missing_path_fails_construction_for_each_file_backed_dialect() {
    for tag in ["folder", "file", "duckdb", "sqlite"] {
        let r = get_dialect(payload(tag));
        assert!(
            matches!(r, Err(FactoryError::MissingField)),
            "{} without path must fail construction",
            tag
        );
    }
}

#[test]
fn missing_host_fails_construction_for_each_networked_dialect() {
    for tag in ["clickhouse", "clickhouse_tcp", "mysql", "postgres"] {
        let r = get_dialect(payload(tag));
        assert!(
            matches!(r, Err(FactoryError::MissingField)),
            "{} without host must fail construction",
            tag
        );
    }
}

#[test]
fn missing_port_fails_construction_for_mysql_and_postgres() {
    for tag in ["mysql", "postgres"] {
        let mut p = payload(tag);
        p.host = Some("h".to_string());
        let r = get_dialect(p);
        assert!(
            matches!(r, Err(FactoryError::MissingField)),
            "{} without port must fail construction",
            tag
        );
    }
}

#[test]
fn ast_dialect_mapping() {
    assert_eq!(get_ast_dialect("folder"), AstDialect::DuckDb);
    assert_eq!(get_ast_dialect("file"), AstDialect::DuckDb);
    assert_eq!(get_ast_dialect("duckdb"), AstDialect::DuckDb);
    assert_eq!(get_ast_dialect("clickhouse_tcp"), AstDialect::ClickHouse);
    assert_eq!(get_ast_dialect("mysql"), AstDialect::MySql);
    assert_eq!(get_ast_dialect("postgres"), AstDialect::PostgreSql);
    assert_eq!(get_ast_dialect("clickhouse"), AstDialect::Generic);
    assert_eq!(get_ast_dialect("sqlite"), AstDialect::Generic);
    assert_eq!(get_ast_dialect("anything"), AstDialect::Generic);
}
