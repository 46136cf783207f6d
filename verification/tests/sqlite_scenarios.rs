//! Scenarios against a real SQLite backend: the library builds every
//! statement, sqlx runs it.

use dbcore::config::SqliteConfig;
use dbcore::sql::build_update_statement;
use dbcore::sqlite::SqliteDriver;
use dbcore::value::Value;

fn runtime() -> tokio::runtime::Runtime {
    tokio::runtime::Builder::new_current_thread()
        .enable_all()
        .build()
        .unwrap()
}

async fn memory_pool() -> sqlx::SqlitePool {
    sqlx::sqlite::SqlitePoolOptions::new()
        .max_connections(1)
        .connect("sqlite::memory:")
        .await
        .unwrap()
}

#[test]
fn rwc_mode_creates_missing_file_and_probe_succeeds() {
    // Connecting to a nonexistent file path in rwc mode creates the file;
    // a subsequent probe (SELECT 1) succeeds.
    let path = format!("/tmp/dbcore_{}.db", uuid::Uuid::new_v4());
    let driver = SqliteDriver::new(SqliteConfig { file_path: path });
    let conn_str = driver.connection_string();
    runtime().block_on(async {
        let pool = sqlx::sqlite::SqlitePoolOptions::new()
            .max_connections(1)
            .connect(&conn_str)
            .await
            .expect("rwc mode creates the missing file");
        let row: (i64,) = sqlx::query_as("SELECT 1").fetch_one(&pool).await.unwrap();
        assert_eq!(row.0, 1);
        pool.close().await;
    });
}

#[test]
fn page_two_of_five_rows_returns_two_with_full_total() {
    // get_table_data(page=2, limit=2, filter=None) against a 5-row table:
    // exactly 2 rows come back and the total is 5.
    let driver = SqliteDriver::new(SqliteConfig { file_path: String::new() });
    let (count_q, data_q) = driver.table_data_queries("items", 2, 2, &None).unwrap();
    runtime().block_on(async {
        let pool = memory_pool().await;
        sqlx::query("CREATE TABLE items (id INTEGER PRIMARY KEY, name TEXT)")
            .execute(&pool)
            .await
            .unwrap();
        for i in 1..=5 {
            sqlx::query(&format!("INSERT INTO items (id, name) VALUES ({}, 'n{}')", i, i))
                .execute(&pool)
                .await
                .unwrap();
        }
        let total: (i64,) = sqlx::query_as(&count_q).fetch_one(&pool).await.unwrap();
        assert_eq!(total.0, 5);
        let rows = sqlx::query(&data_q).fetch_all(&pool).await.unwrap();
        assert_eq!(rows.len(), 2);
        pool.close().await;
    });
}

#[test]
fn filtered_page_counts_only_matching_rows() {
    let driver = SqliteDriver::new(SqliteConfig { file_path: String::new() });
    let filter = Some("id > 3".to_string());
    let (count_q, data_q) = driver.table_data_queries("items", 1, 10, &filter).unwrap();
    runtime().block_on(async {
        let pool = memory_pool().await;
        sqlx::query("CREATE TABLE items (id INTEGER PRIMARY KEY)")
            .execute(&pool)
            .await
            .unwrap();
        for i in 1..=5 {
            sqlx::query(&format!("INSERT INTO items (id) VALUES ({})", i))
                .execute(&pool)
                .await
                .unwrap();
        }
        let total: (i64,) = sqlx::query_as(&count_q).fetch_one(&pool).await.unwrap();
        assert_eq!(total.0, 2);
        let rows = sqlx::query(&data_q).fetch_all(&pool).await.unwrap();
        assert_eq!(rows.len(), 2);
        pool.close().await;
    });
}

#[test]
fn built_update_statement_edits_exactly_one_row() {
    let pk_cols = vec!["id".to_string()];
    let pk_vals = vec![Value::integer(2)];
    let updates = vec![("name".to_string(), Value::Str("O'Brien".to_string()))];
    let stmt = build_update_statement("sqlite", "main", "people", &pk_cols, &pk_vals, &updates)
        .unwrap();
    runtime().block_on(async {
        let pool = memory_pool().await;
        sqlx::query("CREATE TABLE people (id INTEGER PRIMARY KEY, name TEXT)")
            .execute(&pool)
            .await
            .unwrap();
        sqlx::query("INSERT INTO people (id, name) VALUES (1, 'a'), (2, 'b'), (3, 'c')")
            .execute(&pool)
            .await
            .unwrap();
        sqlx::query(&stmt).execute(&pool).await.unwrap();
        let changed: (String,) = sqlx::query_as("SELECT name FROM people WHERE id = 2")
            .fetch_one(&pool)
            .await
            .unwrap();
        assert_eq!(changed.0, "O'Brien");
        let untouched: (String,) = sqlx::query_as("SELECT name FROM people WHERE id = 1")
            .fetch_one(&pool)
            .await
            .unwrap();
        assert_eq!(untouched.0, "a");
        pool.close().await;
    });
}

#[test]
fn quoted_identifier_is_valid_sql() {
    // The escaped form of an identifier holding a double quote is
    // syntactically valid: a table named a"b can be created and queried
    // through it.
    let ident = dbcore::sql::escape_sql_identifier("a\"b");
    runtime().block_on(async {
        let pool = memory_pool().await;
        sqlx::query(&format!("CREATE TABLE {} (x INTEGER)", ident))
            .execute(&pool)
            .await
            .expect("the quoted identifier parses");
        sqlx::query(&format!("INSERT INTO {} (x) VALUES (9)", ident))
            .execute(&pool)
            .await
            .unwrap();
        let row: (i64,) = sqlx::query_as(&format!("SELECT x FROM {}", ident))
            .fetch_one(&pool)
            .await
            .unwrap();
        assert_eq!(row.0, 9);
        pool.close().await;
    });
}

#[test]
fn pragma_queries_run() {
    let table_info = dbcore::sqlite::sqlite_table_info_query("t");
    assert_eq!(table_info, "PRAGMA table_info(\"t\")");
    runtime().block_on(async {
        let pool = memory_pool().await;
        sqlx::query("CREATE TABLE t (id INTEGER PRIMARY KEY, v TEXT NOT NULL)")
            .execute(&pool)
            .await
            .unwrap();
        let rows = sqlx::query(&table_info).fetch_all(&pool).await.unwrap();
        assert_eq!(rows.len(), 2);
        pool.close().await;
    });
}
