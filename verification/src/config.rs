//! Connection configuration: the per-backend config records, the backend
//! type dispatch, and the translation of a persisted connection record into
//! the snapshot a connect attempt uses.

use vstd::prelude::*;

use crate::models::Connection;
use crate::text::lower_seq;
use crate::text::lower_str;
use crate::text::parse_i64_chars;
use crate::text::parse_i64_spec;
use crate::text::str_chars;
use crate::sql::str_eq;

verus! {

/// Configuration for PostgreSQL connections.
#[derive(Clone, Debug)]
pub struct PostgresConfig {
    pub host: String,
    pub port: i64,
    pub database: String,
    pub username: String,
    pub password: String,
    pub ssl: bool,
}

/// Configuration for SQLite connections.
#[derive(Clone, Debug)]
pub struct SqliteConfig {
    pub file_path: String,
}

/// Configuration for Redis connections.
#[derive(Clone, Debug)]
pub struct RedisConfig {
    pub host: String,
    pub port: i64,
    pub password: Option<String>,
    pub db: Option<i64>,
    pub tls: bool,
}

/// The wire protocol a ClickHouse connection uses.
#[derive(Clone, Debug)]
pub enum ClickhouseProtocol {
    Http,
    Tcp,
}

impl Default for ClickhouseProtocol {
    fn default() -> (r: Self)
        ensures
            r is Http,
    {
        ClickhouseProtocol::Http
    }
}

/// Configuration for ClickHouse connections.
#[derive(Clone, Debug)]
pub struct ClickhouseConfig {
    pub host: String,
    pub port: i64,
    pub database: String,
    pub username: String,
    pub password: String,
    pub protocol: ClickhouseProtocol,
    pub ssl: bool,
}

/// The backend technologies the capability interface dispatches over.
pub enum DatabaseType {
    Postgres,
    Sqlite,
    Redis,
    Clickhouse,
}

impl DatabaseType {
    /// Recognize a backend type name, case-insensitively, under its common
    /// aliases.
    pub fn from_str(s: &str) -> (r: Option<DatabaseType>)
        ensures
            r == Some(DatabaseType::Postgres) <==> (lower_seq(s@) == "postgres"@ || lower_seq(s@)
                == "postgresql"@),
            r == Some(DatabaseType::Sqlite) <==> (lower_seq(s@) == "sqlite"@ || lower_seq(s@)
                == "sqlite3"@),
            r == Some(DatabaseType::Redis) <==> lower_seq(s@) == "redis"@,
            r == Some(DatabaseType::Clickhouse) <==> lower_seq(s@) == "clickhouse"@,
    {
        proof {
            broadcast use vstd::string::group_string_axioms;

            reveal_strlit("postgres");
            reveal_strlit("postgresql");
            reveal_strlit("sqlite");
            reveal_strlit("sqlite3");
            reveal_strlit("redis");
            reveal_strlit("clickhouse");
            assert("postgres"@.len() == 8);
            assert("postgresql"@.len() == 10);
            assert("sqlite"@.len() == 6);
            assert("sqlite3"@.len() == 7);
            assert("redis"@.len() == 5);
            assert("clickhouse"@.len() == 10);
            assert("postgresql"@[0] == 'p' && "clickhouse"@[0] == 'c');
        }
        let l = lower_str(s);
        if str_eq(l.as_str(), "postgres") || str_eq(l.as_str(), "postgresql") {
            Some(DatabaseType::Postgres)
        } else if str_eq(l.as_str(), "sqlite") || str_eq(l.as_str(), "sqlite3") {
            Some(DatabaseType::Sqlite)
        } else if str_eq(l.as_str(), "redis") {
            Some(DatabaseType::Redis)
        } else if str_eq(l.as_str(), "clickhouse") {
            Some(DatabaseType::Clickhouse)
        } else {
            None
        }
    }
}

/// The immutable snapshot a connect attempt is made from.
#[derive(Clone)]
pub struct ConnectionConfig {
    pub db_type: String,
    pub host: Option<String>,
    pub port: Option<i64>,
    pub database: Option<String>,
    pub username: Option<String>,
    pub password: Option<String>,
    pub ssl: Option<bool>,
    pub file_path: Option<String>,
    pub ssh_enabled: bool,
    pub ssh_host: Option<String>,
    pub ssh_port: Option<i64>,
    pub ssh_user: Option<String>,
    pub ssh_password: Option<String>,
    pub ssh_key_path: Option<String>,
}

pub open spec fn none_if_empty(s: Seq<char>) -> Option<Seq<char>> {
    if s.len() == 0 {
        None
    } else {
        Some(s)
    }
}

impl ConnectionConfig {
    /// The connect snapshot taken from a persisted record: numeric flags
    /// become booleans, empty SSH fields become absent ones, and the key
    /// path counts only when key authentication was chosen.
    pub fn from_record(conn: &Connection) -> (r: ConnectionConfig)
        ensures
            r.db_type@ == conn.db_type@,
            r.host == Some(conn.host),
            r.port == Some(conn.port),
            r.database == Some(conn.database),
            r.username == Some(conn.username),
            r.password == Some(conn.password),
            r.ssl == Some(conn.ssl == 1),
            r.file_path == conn.file_path,
            r.ssh_enabled == (conn.ssh_enabled == 1),
            r.ssh_host is Some <==> conn.ssh_host@.len() > 0,
            r.ssh_host is Some ==> r.ssh_host->0@ == conn.ssh_host@,
            r.ssh_port == Some(conn.ssh_port),
            r.ssh_user is Some <==> conn.ssh_user@.len() > 0,
            r.ssh_user is Some ==> r.ssh_user->0@ == conn.ssh_user@,
            r.ssh_password is Some <==> conn.ssh_password@.len() > 0,
            r.ssh_password is Some ==> r.ssh_password->0@ == conn.ssh_password@,
            r.ssh_key_path is Some <==> (conn.ssh_use_key == 1 && conn.ssh_key_path@.len() > 0),
            r.ssh_key_path is Some ==> r.ssh_key_path->0@ == conn.ssh_key_path@,
    {
        ConnectionConfig {
            db_type: conn.db_type.clone(),
            host: Some(conn.host.clone()),
            port: Some(conn.port),
            database: Some(conn.database.clone()),
            username: Some(conn.username.clone()),
            password: Some(conn.password.clone()),
            ssl: Some(conn.ssl == 1),
            file_path: conn.file_path.clone(),
            ssh_enabled: conn.ssh_enabled == 1,
            ssh_host: if conn.ssh_host.as_str().is_empty() {
                None
            } else {
                Some(conn.ssh_host.clone())
            },
            ssh_port: Some(conn.ssh_port),
            ssh_user: if conn.ssh_user.as_str().is_empty() {
                None
            } else {
                Some(conn.ssh_user.clone())
            },
            ssh_password: if conn.ssh_password.as_str().is_empty() {
                None
            } else {
                Some(conn.ssh_password.clone())
            },
            ssh_key_path: if conn.ssh_use_key == 1 && !conn.ssh_key_path.as_str().is_empty() {
                Some(conn.ssh_key_path.clone())
            } else {
                None
            },
        }
    }
}

/// The configuration of one concrete driver, ready to connect.
#[derive(Clone, Debug)]
pub enum DriverConfig {
    Postgres(PostgresConfig),
    Sqlite(SqliteConfig),
    Redis(RedisConfig),
    Clickhouse(ClickhouseConfig),
}

/// The default port of each backend.
pub open spec fn default_port_spec(db_type: Seq<char>) -> int {
    if db_type == "redis"@ {
        6379
    } else if db_type == "clickhouse"@ {
        8123
    } else {
        5432
    }
}

/// The default port of the named backend: 5432 for PostgreSQL, 6379 for
/// Redis, 8123 for ClickHouse.
pub fn default_port(db_type: &str) -> (r: i64)
    ensures
        r == default_port_spec(db_type@),
{
    if str_eq(db_type, "redis") {
        6379
    } else if str_eq(db_type, "clickhouse") {
        8123
    } else {
        5432
    }
}

pub open spec fn opt_str_or(o: Option<String>, d: Seq<char>) -> Seq<char> {
    match o {
        Option::Some(s) => s@,
        Option::None => d,
    }
}

pub open spec fn opt_or_int(o: Option<i64>, d: int) -> int {
    match o {
        Option::Some(v) => v as int,
        Option::None => d,
    }
}

pub open spec fn opt_or_bool(o: Option<bool>, d: bool) -> bool {
    match o {
        Option::Some(v) => v,
        Option::None => d,
    }
}

/// Build the concrete driver configuration named by the snapshot's
/// `db_type`, applying each backend's own defaults from the start. SQLite
/// demands a file path; an unknown type is rejected.
pub fn create_driver(config: &ConnectionConfig) -> (r: Result<DriverConfig, String>)
    ensures
        r is Ok <==> ((config.db_type@ == "postgres"@ || config.db_type@ == "postgresql"@
            || config.db_type@ == "redis"@ || config.db_type@ == "clickhouse"@) || ((
        config.db_type@ == "sqlite"@ || config.db_type@ == "sqlite3"@) && config.file_path
            is Some)),
        (config.db_type@ == "postgres"@ || config.db_type@ == "postgresql"@) ==> r is Ok
            && r->Ok_0 is Postgres && {
            let c = r->Ok_0->Postgres_0;
            &&& c.host@ == opt_str_or(config.host, ""@)
            &&& c.port == opt_or_int(config.port, 5432)
            &&& c.database@ == opt_str_or(config.database, ""@)
            &&& c.username@ == opt_str_or(config.username, ""@)
            &&& c.password@ == opt_str_or(config.password, ""@)
            &&& c.ssl == opt_or_bool(config.ssl, false)
        },
        (config.db_type@ == "sqlite"@ || config.db_type@ == "sqlite3"@) && config.file_path
            is Some ==> r is Ok && r->Ok_0 is Sqlite && r->Ok_0->Sqlite_0.file_path
            == config.file_path->0,
        (config.db_type@ == "sqlite"@ || config.db_type@ == "sqlite3"@) && config.file_path
            is None ==> r is Err && r->Err_0@ == "File path is required for SQLite connections"@,
        config.db_type@ == "redis"@ ==> r is Ok && r->Ok_0 is Redis && {
            let c = r->Ok_0->Redis_0;
            &&& c.host@ == opt_str_or(config.host, ""@)
            &&& c.port == opt_or_int(config.port, 6379)
            &&& c.password == config.password
            &&& c.db == (match config.database {
                Option::Some(d) => parse_i64_spec(d@),
                Option::None => None,
            })
            &&& c.tls == opt_or_bool(config.ssl, false)
        },
        config.db_type@ == "clickhouse"@ ==> r is Ok && r->Ok_0 is Clickhouse && {
            let c = r->Ok_0->Clickhouse_0;
            &&& c.host@ == opt_str_or(config.host, "localhost"@)
            &&& c.port == opt_or_int(config.port, 8123)
            &&& c.database@ == opt_str_or(config.database, "default"@)
            &&& c.username@ == opt_str_or(config.username, "default"@)
            &&& c.password@ == opt_str_or(config.password, ""@)
            &&& c.protocol is Http
            &&& c.ssl == opt_or_bool(config.ssl, false)
        },
        r is Err && !((config.db_type@ == "sqlite"@ || config.db_type@ == "sqlite3"@)
            && config.file_path is None) ==> r->Err_0@ == "Unsupported database type: "@.add(
            config.db_type@,
        ),
{
    proof {
        broadcast use vstd::string::group_string_axioms;

        reveal_strlit("postgres");
        reveal_strlit("postgresql");
        reveal_strlit("sqlite");
        reveal_strlit("sqlite3");
        reveal_strlit("redis");
        reveal_strlit("clickhouse");
        assert("postgres"@.len() == 8);
        assert("postgresql"@.len() == 10);
        assert("sqlite"@.len() == 6);
        assert("sqlite3"@.len() == 7);
        assert("redis"@.len() == 5);
        assert("clickhouse"@.len() == 10);
        assert("postgresql"@[0] == 'p' && "clickhouse"@[0] == 'c');
    }
    let t = config.db_type.as_str();
    if str_eq(t, "postgres") || str_eq(t, "postgresql") {
        Ok(DriverConfig::Postgres(PostgresConfig {
            host: clone_or(&config.host, ""),
            port: clone_or_i64(&config.port, 5432),
            database: clone_or(&config.database, ""),
            username: clone_or(&config.username, ""),
            password: clone_or(&config.password, ""),
            ssl: clone_or_bool(&config.ssl, false),
        }))
    } else if str_eq(t, "sqlite") || str_eq(t, "sqlite3") {
        match &config.file_path {
            Option::Some(p) => Ok(DriverConfig::Sqlite(SqliteConfig { file_path: p.clone() })),
            Option::None => Err("File path is required for SQLite connections".to_owned()),
        }
    } else if str_eq(t, "redis") {
        let db = match &config.database {
            Option::Some(d) => {
                let dv = str_chars(d.as_str());
                parse_i64_chars(&dv)
            },
            Option::None => None,
        };
        Ok(DriverConfig::Redis(RedisConfig {
            host: clone_or(&config.host, ""),
            port: clone_or_i64(&config.port, 6379),
            password: config.password.clone(),
            db,
            tls: clone_or_bool(&config.ssl, false),
        }))
    } else if str_eq(t, "clickhouse") {
        Ok(DriverConfig::Clickhouse(ClickhouseConfig {
            host: clone_or(&config.host, "localhost"),
            port: clone_or_i64(&config.port, 8123),
            database: clone_or(&config.database, "default"),
            username: clone_or(&config.username, "default"),
            password: clone_or(&config.password, ""),
            protocol: ClickhouseProtocol::Http,
            ssl: clone_or_bool(&config.ssl, false),
        }))
    } else {
        let mut out: Vec<char> = crate::text::str_chars("Unsupported database type: ");
        let tv = crate::text::str_chars(t);
        let mut i: usize = 0;
        while i < tv.len()
            invariant
                tv@ == config.db_type@,
                i <= tv@.len(),
                out@ == "Unsupported database type: "@.add(tv@.take(i as int)),
            decreases tv.len() - i,
        {
            out.push(tv[i]);
            proof {
                assert(tv@.take(i + 1 as int) =~= tv@.take(i as int).push(tv@[i as int]));
                assert("Unsupported database type: "@.add(tv@.take(i as int)).push(
                    tv@[i as int],
                ) =~= "Unsupported database type: "@.add(tv@.take(i + 1 as int)));
            }
            i += 1;
        }
        proof {
            assert(tv@.take(tv@.len() as int) =~= tv@);
        }
        Err(crate::text::chars_to_string(&out))
    }
}

fn clone_or(o: &Option<String>, d: &str) -> (r: String)
    ensures
        r@ == opt_str_or(*o, d@),
{
    match o {
        Option::Some(s) => s.clone(),
        Option::None => d.to_owned(),
    }
}

fn clone_or_i64(o: &Option<i64>, d: i64) -> (r: i64)
    ensures
        r as int == opt_or_int(*o, d as int),
{
    match o {
        Option::Some(v) => *v,
        Option::None => d,
    }
}

fn clone_or_bool(o: &Option<bool>, d: bool) -> (r: bool)
    ensures
        r == opt_or_bool(*o, d),
{
    match o {
        Option::Some(v) => *v,
        Option::None => d,
    }
}

} // verus!
