use dbquery::digits::{i64_to_dec, u64_to_dec};
use dbquery::dispatch::{run_query, DBType, QueryOutcome};
use dbquery::engine::run_sqlite_query;

fn expect_rows(path: &str, query: &str) -> (Vec<String>, Vec<Vec<String>>) {
    match run_query(path, query, &DBType::Sqlite) {
        Ok(QueryOutcome::Rows(qr)) => (qr.fields, qr.rows),
        Ok(QueryOutcome::Failed(msg)) => panic!("query failed: {}", msg),
        Err(e) => panic!("dispatch failed: {}", e),
    }
}

fn expect_failed(path: &str, query: &str) -> String {
    match run_query(path, query, &DBType::Sqlite) {
        Ok(QueryOutcome::Failed(msg)) => msg,
        Ok(QueryOutcome::Rows(_)) => panic!("query unexpectedly succeeded"),
        Err(e) => panic!("dispatch failed: {}", e),
    }
}

#[test]
fn select_one_names_one_column_and_one_value() {
    let (fields, rows) = expect_rows(":memory:", "SELECT 1 AS x");
    assert_eq!(fields, vec!["x".to_string()]);
    assert_eq!(rows, vec![vec!["1".to_string()]]);
}

#[test]
fn missing_table_is_a_printed_driver_error() {
    let msg = expect_failed(":memory:", "SELECT * FROM missing_table");
    assert!(msg.contains("missing_table"));
}

#[test]
fn unopenable_path_is_a_printed_driver_error() {
    let msg = expect_failed("no_such_dir/absent.db", "SELECT 1 AS x");
    assert!(!msg.is_empty());
}

#[test]
fn missing_file_is_not_created_but_reported() {
    // Were the file silently created, this query would succeed on the
    // fresh empty database instead of failing to open.
    let msg = expect_failed("surely_absent_dbquery_file.sqlite3", "SELECT 1 AS x");
    assert!(!msg.is_empty());
}

#[test]
fn unsupported_kind_always_errs() {
    for (path, query) in [
        (":memory:", "SELECT 1 AS x"),
        ("no_such_dir/absent.db", "whatever"),
        ("", ""),
    ] {
        match run_query(path, query, &DBType::Duckdb) {
            Err(msg) => assert_eq!(msg, "Unsupported DB type"),
            Ok(_) => panic!("unsupported kind must not run"),
        }
    }
}

#[test]
fn column_count_matches_every_row_width() {
    let (fields, rows) = expect_rows(
        ":memory:",
        "SELECT 1 AS a, 'x' AS b UNION ALL SELECT 2, 'y' ORDER BY a",
    );
    assert_eq!(fields, vec!["a".to_string(), "b".to_string()]);
    assert_eq!(
        rows,
        vec![
            vec!["1".to_string(), "x".to_string()],
            vec!["2".to_string(), "y".to_string()],
        ]
    );
    for row in &rows {
        assert_eq!(row.len(), fields.len());
    }
}

#[test]
fn empty_result_still_names_columns() {
    let (fields, rows) = expect_rows(":memory:", "SELECT 1 AS x WHERE 0");
    assert_eq!(fields, vec!["x".to_string()]);
    assert!(rows.is_empty());
}

#[test]
fn statement_without_columns_yields_empty_result() {
    let (fields, rows) = expect_rows(":memory:", "CREATE TABLE t (x)");
    assert!(fields.is_empty());
    assert!(rows.is_empty());
}

#[test]
fn multi_statement_query_is_a_printed_driver_error() {
    let msg = expect_failed(":memory:", "SELECT 1 AS x; SELECT 2 AS y");
    assert!(!msg.is_empty());
}

#[test]
fn integer_cells_render_in_decimal() {
    let (_, rows) = expect_rows(
        ":memory:",
        "SELECT -5 AS n, 9223372036854775807 AS big, -9223372036854775808 AS small",
    );
    assert_eq!(
        rows,
        vec![vec![
            "-5".to_string(),
            "9223372036854775807".to_string(),
            "-9223372036854775808".to_string(),
        ]]
    );
}

#[test]
fn text_cells_render_as_themselves() {
    let (_, rows) = expect_rows(":memory:", "SELECT 'hi' AS t, '' AS e");
    assert_eq!(rows, vec![vec!["hi".to_string(), "".to_string()]]);
}

#[test]
fn null_cell_is_a_conversion_error() {
    let msg = expect_failed(":memory:", "SELECT NULL AS n");
    assert_eq!(msg, "cannot convert value to text at column index 0");
}

#[test]
fn real_cell_is_a_conversion_error() {
    let msg = expect_failed(":memory:", "SELECT 1.5 AS r");
    assert_eq!(msg, "cannot convert value to text at column index 0");
}

#[test]
fn blob_cell_is_a_conversion_error() {
    let msg = expect_failed(":memory:", "SELECT 'ok' AS a, x'0102' AS b");
    assert_eq!(msg, "cannot convert value to text at column index 1");
}

#[test]
fn run_sqlite_query_is_what_dispatch_runs() {
    let qr = run_sqlite_query(":memory:", "SELECT 1 AS x").unwrap();
    assert_eq!(qr.fields, vec!["x".to_string()]);
    assert_eq!(qr.rows, vec![vec!["1".to_string()]]);
    assert_eq!(qr.column_count(), 1);
    assert_eq!(qr.row_count(), 1);
}

#[test]
fn unsigned_decimal_rendering_is_exact() {
    assert_eq!(u64_to_dec(0), "0");
    assert_eq!(u64_to_dec(7), "7");
    assert_eq!(u64_to_dec(10), "10");
    assert_eq!(u64_to_dec(1234567890), "1234567890");
    assert_eq!(u64_to_dec(u64::MAX), "18446744073709551615");
}

#[test]
fn signed_decimal_rendering_is_exact() {
    assert_eq!(i64_to_dec(0), "0");
    assert_eq!(i64_to_dec(42), "42");
    assert_eq!(i64_to_dec(-1), "-1");
    assert_eq!(i64_to_dec(i64::MAX), "9223372036854775807");
    assert_eq!(i64_to_dec(i64::MIN), "-9223372036854775808");
}

#[test]
fn kind_labels() {
    assert_eq!(DBType::Sqlite.label(), "Sqlite");
    assert_eq!(DBType::Duckdb.label(), "Duckdb");
}
