//! A uniform access layer over heterogeneous tabular data sources.
//!
//! Callers describe the backend they want to reach with a [`DialectPayload`]
//! (a dialect tag plus connection parameters); the factory resolves it into a
//! concrete [`Connection`] variant or reports that the dialect is not
//! supported.  Every operation's raw backend outcome is normalized into one
//! columnar envelope, [`ArrowResponse`], so callers see a single response
//! shape and error taxonomy no matter which backend did the work.
//!
//! The backend wire protocols themselves perform network and disk I/O and
//! live outside this crate; the functions here take the raw outcome of a
//! backend call as an argument and are verified for every value it may have.

pub mod dialect;
pub mod ops;
pub mod paths;
pub mod payload;
pub mod registry;
pub mod response;
pub mod sql;
pub mod strutil;

pub use dialect::AstDialect;
pub use dialect::Connection;
pub use dialect::FactoryError;
pub use dialect::get_ast_dialect;
pub use dialect::get_dialect;
pub use ops::all_columns;
pub use ops::drop_table;
pub use ops::export;
pub use ops::export_format;
pub use ops::find;
pub use ops::format_sql;
pub use ops::get_db;
pub use ops::paging_query;
pub use ops::query;
pub use ops::query_table;
pub use ops::show_column;
pub use ops::show_schema;
pub use ops::table_row_count;
pub use paths::PathStatus;
pub use paths::open_path;
pub use payload::DialectPayload;
pub use registry::OpenedFiles;
pub use response::ArrowResponse;
pub use response::Metadata;
pub use response::RawData;
pub use response::TreeNode;
pub use sql::table_count_sql;
pub use sql::table_select_sql;
