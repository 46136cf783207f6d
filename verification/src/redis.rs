//! The Redis driver's text and decision layer: connection strings, the
//! command plan of `execute_query`, the bounded key scan, and key-oriented
//! result assembly.
//!
//! Redis has no tables: listing yields a single synthetic keyspace entry,
//! and rows are reached through key operations instead. The caller holds
//! one multiplexed connection, rebuilt wholesale on any connection-class
//! error, and drives the SCAN loop; which keys are kept, when the scan
//! stops, and what the continuation cursor means, is decided here.

use vstd::prelude::*;

use crate::config::RedisConfig;
use crate::models::TableInfo;
use crate::text::chars_to_string;
use crate::text::contains_seq;
use crate::text::dec_int;
use crate::text::dec_str;
use crate::text::has_prefix;
use crate::text::i64_string;
use crate::text::is_space;
use crate::text::push_word;
use crate::text::str_chars;
use crate::text::str_contains;
use crate::text::starts_with_chars;
use crate::text::subrange_chars;
use crate::text::trim_chars;
use crate::text::trim_seq;
use crate::text::u64_string;
use crate::text::upper_chars;
use crate::text::upper_seq;
use crate::value::Value;

verus! {

/// One key of a scan listing; metadata is loaded on demand, so a fresh
/// listing carries the not-yet-loaded markers.
#[derive(Clone)]
pub struct RedisKeyInfo {
    pub key: String,
    pub key_type: String,
    pub ttl: i64,
    pub size: Option<usize>,
}

/// A bounded, resumable key scan's result: at most the requested number of
/// keys, and the continuation cursor — zero only when the scan is
/// complete.
#[derive(Clone)]
pub struct RedisKeyListResponse {
    pub keys: Vec<RedisKeyInfo>,
    pub total: i64,
    pub cursor: u64,
    pub time_taken_ms: Option<u128>,
}

/// Everything known about one key, value included.
pub struct RedisKeyDetails {
    pub key: String,
    pub key_type: String,
    pub ttl: i64,
    pub value: Value,
    pub encoding: Option<String>,
    pub size: Option<usize>,
    pub length: Option<usize>,
}

/// The Redis driver: its configuration; the caller holds the multiplexed
/// connection it names.
pub struct RedisDriver {
    pub config: RedisConfig,
}

pub open spec fn redis_auth_spec(password: Option<String>) -> Seq<char> {
    match password {
        Option::Some(p) => if p@.len() > 0 {
            ":"@.add(p@).add("@"@)
        } else {
            Seq::<char>::empty()
        },
        Option::None => Seq::<char>::empty(),
    }
}

pub open spec fn redis_conn_string_spec(
    tls: bool,
    password: Option<String>,
    host: Seq<char>,
    port: int,
    db: Option<i64>,
) -> Seq<char> {
    (if tls {
        "rediss"@
    } else {
        "redis"@
    }).add("://"@).add(redis_auth_spec(password)).add(host).add(":"@).add(dec_int(port)).add(
        "/"@,
    ).add(
        dec_int(
            match db {
                Option::Some(d) => d as int,
                Option::None => 0,
            },
        ),
    )
}

impl RedisDriver {
    pub fn new(config: RedisConfig) -> (r: RedisDriver)
        ensures
            r.config == config,
    {
        RedisDriver { config }
    }

    /// `redis://[:password@]host:port/db`, with `rediss` under TLS and
    /// database 0 by default.
    pub fn build_connection_string(&self) -> (r: String)
        ensures
            r@ == redis_conn_string_spec(
                self.config.tls,
                self.config.password,
                self.config.host@,
                self.config.port as int,
                self.config.db,
            ),
    {
        self.build_connection_string_with_host(self.config.host.as_str(), self.config.port)
    }

    /// The same connection string aimed at another endpoint: how the
    /// driver reaches its server through a tunnel's local port.
    pub fn build_connection_string_with_host(&self, host: &str, port: i64) -> (r: String)
        ensures
            r@ == redis_conn_string_spec(
                self.config.tls,
                self.config.password,
                host@,
                port as int,
                self.config.db,
            ),
    {
        let mut out: Vec<char> = Vec::new();
        if self.config.tls {
            push_word(&mut out, "rediss");
        } else {
            push_word(&mut out, "redis");
        }
        push_word(&mut out, "://");
        match &self.config.password {
            Option::Some(p) => {
                if !p.as_str().is_empty() {
                    push_word(&mut out, ":");
                    push_word(&mut out, p.as_str());
                    push_word(&mut out, "@");
                }
            },
            Option::None => {},
        }
        push_word(&mut out, host);
        push_word(&mut out, ":");
        let ps = i64_string(port);
        push_word(&mut out, ps.as_str());
        push_word(&mut out, "/");
        let db = match self.config.db {
            Option::Some(d) => d,
            Option::None => 0,
        };
        let ds = i64_string(db);
        push_word(&mut out, ds.as_str());
        proof {
            assert(out@ =~= redis_conn_string_spec(
                self.config.tls,
                self.config.password,
                host@,
                port as int,
                self.config.db,
            ));
        }
        chars_to_string(&out)
    }

    /// The single synthetic listing entry: Redis has a keyspace, not
    /// tables.
    pub fn keyspace_entry(&self) -> (r: TableInfo)
        ensures
            r.schema@ == "redis"@,
            r.name@ == "keys"@,
            r.table_type@ == "keyspace"@,
    {
        TableInfo {
            schema: "redis".to_owned(),
            name: "keys".to_owned(),
            table_type: "keyspace".to_owned(),
        }
    }
}

// ---------------------------------------------------------------------------
// Splitting a raw command into words
// ---------------------------------------------------------------------------

/// The first whitespace position at or after `i`, or the end.
pub open spec fn first_space_from(s: Seq<char>, i: int) -> int
    decreases s.len() - i when 0 <= i <= s.len()
{
    if i >= s.len() {
        s.len() as int
    } else if is_space(s[i]) {
        i
    } else {
        first_space_from(s, i + 1)
    }
}

proof fn lemma_first_space_bounds(s: Seq<char>, i: int)
    requires
        0 <= i <= s.len(),
    ensures
        i <= first_space_from(s, i) <= s.len(),
    decreases s.len() - i,
{
    if i < s.len() && !is_space(s[i]) {
        lemma_first_space_bounds(s, i + 1);
    }
}

/// The whitespace-separated words of `s`, from position `i` on.
pub open spec fn tokens_from(s: Seq<char>, i: int) -> Seq<Seq<char>>
    decreases s.len() - i when 0 <= i <= s.len() via tokens_from_decreases
{
    if i >= s.len() {
        Seq::<Seq<char>>::empty()
    } else if is_space(s[i]) {
        tokens_from(s, i + 1)
    } else {
        seq![s.subrange(i, first_space_from(s, i + 1))].add(
            tokens_from(s, first_space_from(s, i + 1)),
        )
    }
}

#[via_fn]
proof fn tokens_from_decreases(s: Seq<char>, i: int) {
    if 0 <= i < s.len() && !is_space(s[i]) {
        lemma_first_space_bounds(s, i + 1);
    }
}

/// The whitespace-separated words of `s`.
pub open spec fn tokens_of(s: Seq<char>) -> Seq<Seq<char>> {
    tokens_from(s, 0)
}

pub open spec fn word_views(ws: Seq<String>) -> Seq<Seq<char>> {
    ws.map_values(|w: String| w@)
}

/// Split a command into its whitespace-separated words.
pub fn split_words(v: &Vec<char>) -> (r: Vec<String>)
    ensures
        word_views(r@) == tokens_of(v@),
{
    let ghost s = v@;
    let mut out: Vec<String> = Vec::new();
    let mut i: usize = 0;
    proof {
        assert(word_views(out@) =~= Seq::<Seq<char>>::empty());
        assert(Seq::<Seq<char>>::empty().add(tokens_from(s, 0)) =~= tokens_from(s, 0));
    }
    while i < v.len()
        invariant
            s == v@,
            i <= s.len(),
            tokens_of(s) == word_views(out@).add(tokens_from(s, i as int)),
        decreases v.len() - i,
    {
        let c = v[i];
        if c == ' ' || c == '\t' || c == '\n' || c == '\r' {
            proof {
                assert(tokens_from(s, i as int) == tokens_from(s, i + 1 as int));
            }
            i += 1;
        } else {
            let mut k: usize = i + 1;
            while k < v.len() && !(v[k] == ' ' || v[k] == '\t' || v[k] == '\n' || v[k] == '\r')
                invariant
                    s == v@,
                    i + 1 <= k <= s.len(),
                    first_space_from(s, i + 1 as int) == first_space_from(s, k as int),
                decreases v.len() - k,
            {
                k += 1;
            }
            proof {
                assert(first_space_from(s, k as int) == k as int);
            }
            let word = subrange_chars(v, i, k);
            let ghost before = word_views(out@);
            out.push(chars_to_string(&word));
            proof {
                assert(word_views(out@) =~= before.push(word@));
                assert(tokens_from(s, i as int) == seq![s.subrange(i as int, k as int)].add(
                    tokens_from(s, k as int),
                ));
                assert(tokens_of(s) =~= word_views(out@).add(tokens_from(s, k as int)));
            }
            i = k;
        }
    }
    proof {
        assert(tokens_from(s, s.len() as int) =~= Seq::<Seq<char>>::empty());
        assert(word_views(out@).add(Seq::<Seq<char>>::empty()) =~= word_views(out@));
    }
    out
}

/// How `execute_query` issues a raw command: the INFO report, a
/// word-split command, or nothing at all.
pub enum RedisCommandPlan {
    Info(String),
    Raw(Vec<String>),
    Empty,
}

/// Decide how a raw query is issued: an INFO prefix (case-insensitively)
/// selects the INFO report with whatever follows the literal prefix as its
/// section; anything else is split into words; an all-whitespace query is
/// rejected as empty.
pub fn plan_command(q: &str) -> (r: RedisCommandPlan)
    ensures
        r is Info <==> has_prefix(upper_seq(trim_seq(q@)), "INFO"@),
        r is Info ==> r->Info_0@ == (if has_prefix(trim_seq(q@), "INFO"@) {
            trim_seq(q@).skip(4)
        } else {
            Seq::<char>::empty()
        }),
        r is Empty <==> (!has_prefix(upper_seq(trim_seq(q@)), "INFO"@) && tokens_of(
            trim_seq(q@),
        ).len() == 0),
        r is Raw ==> word_views(r->Raw_0@) == tokens_of(trim_seq(q@)) && tokens_of(
            trim_seq(q@),
        ).len() > 0,
{
    let v = str_chars(q);
    let t = trim_chars(&v);
    let u = upper_chars(&t);
    let p = str_chars("INFO");
    if starts_with_chars(&u, &p) {
        proof {
            reveal_strlit("INFO");
            assert("INFO"@.len() == 4);
        }
        if starts_with_chars(&t, &p) {
            let arg = subrange_chars(&t, 4, t.len());
            proof {
                assert(t@.subrange(4, t@.len() as int) =~= t@.skip(4));
            }
            RedisCommandPlan::Info(chars_to_string(&arg))
        } else {
            RedisCommandPlan::Info(String::new())
        }
    } else {
        let parts = split_words(&t);
        if parts.len() == 0 {
            proof {
                assert(word_views(parts@).len() == 0);
            }
            RedisCommandPlan::Empty
        } else {
            proof {
                assert(word_views(parts@).len() > 0);
            }
            RedisCommandPlan::Raw(parts)
        }
    }
}

// ---------------------------------------------------------------------------
// The bounded key scan
// ---------------------------------------------------------------------------

/// How many SCAN rounds one call may make: the scan is a bounded,
/// resumable iteration, never a guaranteed full listing.
pub fn max_scan_iterations() -> (r: u64)
    ensures
        r == 1000,
{
    1000
}

/// Fold one SCAN reply into the gathered keys and decide whether to go on:
/// the scan stops when the server's cursor reaches zero (complete), the
/// gathered keys reach the limit, or the iteration cap is spent (both
/// incomplete, resumable at the cursor).
pub fn scan_step(
    keys: &mut Vec<String>,
    batch: Vec<String>,
    new_cursor: u64,
    limit: i64,
    iteration: u64,
    max_iterations: u64,
) -> (done: bool)
    requires
        iteration < u64::MAX,
    ensures
        final(keys)@ == old(keys)@.add(batch@),
        done == (new_cursor == 0 || final(keys)@.len() >= limit || iteration + 1
            >= max_iterations),
{
    let mut b = batch;
    keys.append(&mut b);
    let n = keys.len();
    let reached = if limit <= 0 {
        true
    } else {
        (n as u64) >= (limit as u64)
    };
    new_cursor == 0 || reached || iteration + 1 >= max_iterations
}

/// One progress report of an incremental key search: which round just
/// finished out of how many at most, how many keys are gathered so far,
/// and how large the round's batch was.
pub struct RedisScanProgress {
    pub iteration: u64,
    pub max_iterations: u64,
    pub keys_found: u64,
    pub batch_size: u64,
}

/// The report for one finished scan round.
pub fn scan_progress(iteration: u64, max_iterations: u64, keys_found: u64, batch_size: u64) -> (r:
    RedisScanProgress)
    ensures
        r.iteration == iteration,
        r.max_iterations == max_iterations,
        r.keys_found == keys_found,
        r.batch_size == batch_size,
{
    RedisScanProgress { iteration, max_iterations, keys_found, batch_size }
}

/// Assemble the scan's result: the first `limit` keys, each as a listing
/// entry with metadata not yet loaded (`ttl` -2, empty type), the total
/// reporting how many were kept, and the continuation cursor as the
/// server returned it.
pub fn finish_search(keys: Vec<String>, cursor: u64, limit: i64, time_taken_ms: Option<u128>) -> (r:
    RedisKeyListResponse)
    requires
        0 <= limit,
    ensures
        r.keys@.len() == (if keys@.len() <= limit {
            keys@.len() as int
        } else {
            limit as int
        }),
        forall|i: int|
            0 <= i < r.keys@.len() ==> (#[trigger] r.keys@[i]).key == keys@[i]
                && r.keys@[i].key_type@.len() == 0 && r.keys@[i].ttl == -2 && r.keys@[i].size
                is None,
        r.total == r.keys@.len(),
        r.cursor == cursor,
        r.time_taken_ms == time_taken_ms,
{
    let mut out: Vec<RedisKeyInfo> = Vec::new();
    let mut i: usize = 0;
    while i < keys.len() && (i as i64) < limit
        invariant
            i <= keys@.len(),
            i as int <= limit as int,
            out@.len() == i,
            forall|k: int|
                0 <= k < i ==> (#[trigger] out@[k]).key == keys@[k] && out@[k].key_type@.len() == 0
                    && out@[k].ttl == -2 && out@[k].size is None,
        decreases keys.len() - i,
    {
        let key = keys[i].clone();
        out.push(RedisKeyInfo { key, key_type: String::new(), ttl: -2, size: None });
        i += 1;
    }
    let n = out.len() as i64;
    RedisKeyListResponse { keys: out, total: n, cursor, time_taken_ms }
}

// ---------------------------------------------------------------------------
// Key details
// ---------------------------------------------------------------------------

/// The value shapes a key can have, deciding which reads fetch its value
/// and length.
pub enum RedisKeyKind {
    StringKey,
    ListKey,
    SetKey,
    ZSetKey,
    HashKey,
    StreamKey,
    OtherKey,
}

/// The dispatch table over the server's type names.
pub open spec fn redis_key_kind_spec(t: Seq<char>) -> RedisKeyKind {
    if t == "string"@ {
        RedisKeyKind::StringKey
    } else if t == "list"@ {
        RedisKeyKind::ListKey
    } else if t == "set"@ {
        RedisKeyKind::SetKey
    } else if t == "zset"@ {
        RedisKeyKind::ZSetKey
    } else if t == "hash"@ {
        RedisKeyKind::HashKey
    } else if t == "stream"@ {
        RedisKeyKind::StreamKey
    } else {
        RedisKeyKind::OtherKey
    }
}

/// Classify a key's reported type.
pub fn redis_key_kind(t: &str) -> (r: RedisKeyKind)
    ensures
        r == redis_key_kind_spec(t@),
{
    if crate::sql::str_eq(t, "string") {
        RedisKeyKind::StringKey
    } else if crate::sql::str_eq(t, "list") {
        RedisKeyKind::ListKey
    } else if crate::sql::str_eq(t, "set") {
        RedisKeyKind::SetKey
    } else if crate::sql::str_eq(t, "zset") {
        RedisKeyKind::ZSetKey
    } else if crate::sql::str_eq(t, "hash") {
        RedisKeyKind::HashKey
    } else if crate::sql::str_eq(t, "stream") {
        RedisKeyKind::StreamKey
    } else {
        RedisKeyKind::OtherKey
    }
}

/// The message for a key that is not there.
pub fn missing_key_message(key: &str) -> (r: String)
    ensures
        r@ == "Key '"@.add(key@).add("' does not exist"@),
{
    let mut out: Vec<char> = Vec::new();
    push_word(&mut out, "Key '");
    push_word(&mut out, key);
    push_word(&mut out, "' does not exist");
    chars_to_string(&out)
}

/// How a non-UTF-8 bulk value is rendered: its size, not its bytes.
pub fn binary_placeholder(len: usize) -> (r: String)
    ensures
        r@ == "<binary data: "@.add(dec_str(len as nat)).add(" bytes>"@),
{
    let mut out: Vec<char> = Vec::new();
    push_word(&mut out, "<binary data: ");
    let n = u64_string(len as u64);
    push_word(&mut out, n.as_str());
    push_word(&mut out, " bytes>");
    chars_to_string(&out)
}

// ---------------------------------------------------------------------------
// Connection-class errors
// ---------------------------------------------------------------------------

/// Does an error message mean the multiplexed connection itself is gone,
/// so that it must be rebuilt before the next call?
pub fn is_connection_error(msg: &str) -> (r: bool)
    ensures
        r == (contains_seq(msg@, "Connection reset by peer"@) || contains_seq(
            msg@,
            "broken pipe"@,
        ) || contains_seq(msg@, "connection closed"@) || contains_seq(
            msg@,
            "Connection refused"@,
        )),
{
    str_contains(msg, "Connection reset by peer") || str_contains(msg, "broken pipe")
        || str_contains(msg, "connection closed") || str_contains(msg, "Connection refused")
}

/// The message reported when `operation` failed with `error`.
pub fn operation_failed_message(operation: &str, error: &str) -> (r: String)
    ensures
        r@ == "Failed to "@.add(operation@).add(": "@).add(error@),
{
    let mut out: Vec<char> = Vec::new();
    push_word(&mut out, "Failed to ");
    push_word(&mut out, operation);
    push_word(&mut out, ": ");
    push_word(&mut out, error);
    chars_to_string(&out)
}

} // verus!
