//! The plain data shapes every backend produces: table listings, column
//! structure, paginated data, query results and connection probes.

use vstd::prelude::*;

use crate::text::chars_to_string;
use crate::text::push_word;
use crate::value::Value;

verus! {

/// One table (or view) of a database.
#[derive(Clone)]
pub struct TableInfo {
    pub schema: String,
    pub name: String,
    pub table_type: String,
}

/// One column of a table.
#[derive(Clone)]
pub struct ColumnInfo {
    pub name: String,
    pub data_type: String,
    pub nullable: bool,
    pub default: Option<String>,
    pub primary_key: bool,
}

/// One index of a table.
#[derive(Clone)]
pub struct IndexInfo {
    pub name: String,
    pub columns: Vec<String>,
    pub unique: bool,
    pub primary: bool,
}

/// One foreign key of a table.
#[derive(Clone)]
pub struct ForeignKeyInfo {
    pub name: String,
    pub column: String,
    pub references_table: String,
    pub references_column: String,
}

/// The structure of a table: columns, indexes and foreign keys.
#[derive(Clone)]
pub struct TableStructure {
    pub columns: Vec<ColumnInfo>,
    pub indexes: Vec<IndexInfo>,
    pub foreign_keys: Vec<ForeignKeyInfo>,
}

/// A table with its full structure, for the schema overview.
#[derive(Clone)]
pub struct TableWithStructure {
    pub schema: String,
    pub name: String,
    pub table_type: String,
    pub columns: Vec<ColumnInfo>,
    pub foreign_keys: Vec<ForeignKeyInfo>,
    pub indexes: Vec<IndexInfo>,
}

/// The batch form of the structural calls: every table with its structure.
#[derive(Clone)]
pub struct SchemaOverview {
    pub tables: Vec<TableWithStructure>,
}

/// One page of table data, with the full count ignoring pagination.
pub struct TableDataResponse {
    pub data: Vec<Value>,
    pub total: i64,
    pub page: i64,
    pub limit: i64,
}

/// The outcome of a raw query: rows, or an error captured inline.
pub struct QueryResult {
    pub data: Vec<Value>,
    pub row_count: i64,
    pub error: Option<String>,
    pub time_taken_ms: Option<u128>,
}

impl QueryResult {
    /// A successful result: the row count is the number of rows returned.
    pub fn ok(data: Vec<Value>, time_taken_ms: Option<u128>) -> (r: QueryResult)
        requires
            data@.len() <= i64::MAX,
        ensures
            r.data == data,
            r.row_count == data@.len(),
            r.error is None,
            r.time_taken_ms == time_taken_ms,
    {
        let n = data.len() as i64;
        QueryResult { data, row_count: n, error: None, time_taken_ms }
    }

    /// A failed statement: no rows, the backend's message captured inline,
    /// the operation itself still counted as completed.
    pub fn failed(message: String, time_taken_ms: Option<u128>) -> (r: QueryResult)
        ensures
            r.data@.len() == 0,
            r.row_count == 0,
            r.error == Some(message),
            r.time_taken_ms == time_taken_ms,
    {
        QueryResult { data: Vec::new(), row_count: 0, error: Some(message), time_taken_ms }
    }
}

/// Outcome of probing a connection: a structured report, never an error.
#[derive(Clone)]
pub struct TestConnectionResult {
    pub success: bool,
    pub message: String,
}

impl TestConnectionResult {
    /// The fixed report for a connection that answered the probe.
    pub fn ok() -> (r: TestConnectionResult)
        ensures
            r.success,
            r.message@ == "Connection successful!"@,
    {
        TestConnectionResult { success: true, message: "Connection successful!".to_owned() }
    }

    /// The report for a probe that failed with the given cause: never a
    /// success, and the cause is kept in the message.
    pub fn failure(detail: &str) -> (r: TestConnectionResult)
        ensures
            !r.success,
            r.message@ == "Connection failed: "@.add(detail@),
    {
        let mut out: Vec<char> = Vec::new();
        push_word(&mut out, "Connection failed: ");
        push_word(&mut out, detail);
        TestConnectionResult { success: false, message: chars_to_string(&out) }
    }
}

/// A persisted connection record, as the metadata store hands it over.
#[derive(Clone)]
pub struct Connection {
    pub id: i64,
    pub uuid: String,
    pub connection_type: String,
    pub name: String,
    pub host: String,
    pub port: i64,
    pub database: String,
    pub username: String,
    pub password: String,
    pub ssl: i64,
    pub db_type: String,
    pub file_path: Option<String>,
    pub ssh_enabled: i64,
    pub ssh_host: String,
    pub ssh_port: i64,
    pub ssh_user: String,
    pub ssh_password: String,
    pub ssh_key_path: String,
    pub ssh_use_key: i64,
    pub created_at: String,
    pub updated_at: String,
}

/// The editable fields of a connection record.
#[derive(Clone)]
pub struct ConnectionFormData {
    pub connection_type: String,
    pub name: String,
    pub host: String,
    pub port: i64,
    pub database: String,
    pub username: String,
    pub password: String,
    pub ssl: bool,
    pub db_type: String,
    pub file_path: Option<String>,
    pub ssh_enabled: bool,
    pub ssh_host: String,
    pub ssh_port: i64,
    pub ssh_user: String,
    pub ssh_password: String,
    pub ssh_key_path: String,
    pub ssh_use_key: bool,
}

/// The backend type a connection form falls back to.
pub fn default_db_type() -> (r: String)
    ensures
        r@ == "postgres"@,
{
    "postgres".to_owned()
}

/// The SSH port a connection form falls back to.
pub fn default_ssh_port() -> (r: i64)
    ensures
        r == 22,
{
    22
}

/// A saved query record.
#[derive(Clone)]
pub struct SavedQuery {
    pub id: i64,
    pub connection_uuid: String,
    pub name: String,
    pub query: String,
    pub created_at: String,
    pub updated_at: String,
}

/// The editable fields of a saved query.
#[derive(Clone)]
pub struct SavedQueryFormData {
    pub name: String,
    pub query: String,
}

/// One settings entry.
#[derive(Clone)]
pub struct Setting {
    pub key: String,
    pub value: String,
}

} // verus!
