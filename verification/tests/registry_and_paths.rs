use connector_core::OpenedFiles;
use connector_core::PathStatus;
use connector_core::format_sql;
use connector_core::open_path;

#[test]
fn opened_files_reads_empty_before_any_write() {
    let reg = OpenedFiles::new();
    assert_eq!(reg.opened_files(), Vec::<String>::new());
}

#[test]
fn opened_files_reads_back_exactly_what_was_written_in_order() {
    let mut reg = OpenedFiles::new();
    reg.set(vec!["a.csv".to_string(), "b.csv".to_string()]);
    assert_eq!(
        reg.opened_files(),
        vec!["a.csv".to_string(), "b.csv".to_string()]
    );
}

#[test]
fn opened_files_read_is_a_copy_not_a_live_handle() {
    let mut reg = OpenedFiles::new();
    reg.set(vec!["a.csv".to_string()]);
    let mut copy = reg.opened_files();
    copy.push("b.csv".to_string());
    assert_eq!(reg.opened_files(), vec!["a.csv".to_string()]);
}

#[test]
fn open_path_refuses_a_missing_path_before_any_os_action() {
    let status = PathStatus {
        exists: false,
        is_file: false,
        parent: None,
    };
    let r = open_path("/no/such/place", status);
    assert_eq!(r.unwrap_err(), "the path does not exist: /no/such/place");
}

#[test]
fn open_path_reveals_the_containing_directory_of_a_file() {
    let status = PathStatus {
        exists: true,
        is_file: true,
        parent: Some("/home/user".to_string()),
    };
    let r = open_path("/home/user/t.csv", status);
    assert_eq!(r.unwrap(), "/home/user");
}

#[test]
fn open_path_reveals_a_directory_as_itself() {
    let status = PathStatus {
        exists: true,
        is_file: false,
        parent: Some("/home".to_string()),
    };
    let r = open_path("/home/user", status);
    assert_eq!(r.unwrap(), "/home/user");
}

#[test]
fn format_sql_pretty_prints_with_default_options() {
    let r = format_sql("select * from t").unwrap();
    assert_eq!(r, "select\n  *\nfrom\n  t");
}

#[test]
fn format_sql_keeps_keyword_case_and_splits_clauses() {
    let r = format_sql("SELECT id, name FROM t WHERE id > 3").unwrap();
    assert_eq!(r, "SELECT\n  id,\n  name\nFROM\n  t\nWHERE\n  id > 3");
}
