//! The connection pool's state machine: one entry per logical connection
//! identifier, with status tracking, replace-on-reconnect and a
//! retry-exactly-once policy.
//!
//! The caller owns the actual drivers and tunnels and names them here by
//! numeric tokens; it serializes connect attempts per identifier and holds
//! the map behind its own lock. Everything that decides — cache hits,
//! status transitions, what a retry may do — is in this module.

use vstd::prelude::*;

use crate::config::ConnectionConfig;
use crate::sql::str_eq;

verus! {

/// The health of one pooled connection.
#[derive(Clone, Copy, PartialEq, Eq, Structural, Debug)]
pub enum ConnectionStatus {
    Connected,
    Disconnected,
    Reconnecting,
}

/// Status and last error of one connection, as reported to callers.
#[derive(Clone)]
pub struct ConnectionStatusResponse {
    pub status: ConnectionStatus,
    pub error: Option<String>,
}

/// One pooled connection: the caller's token for the driver it built, the
/// snapshot it was built from, and its health.
pub struct PoolEntry {
    pub driver: u64,
    pub config: ConnectionConfig,
    pub status: ConnectionStatus,
    pub last_used: i64,
    pub last_error: Option<String>,
}

/// The first entry stored under `id`, if any.
pub open spec fn lookup(s: Seq<(String, PoolEntry)>, id: Seq<char>) -> Option<PoolEntry>
    decreases s.len(),
{
    if s.len() == 0 {
        None
    } else if s[0].0@ == id {
        Some(s[0].1)
    } else {
        lookup(s.drop_first(), id)
    }
}

/// No two entries share an identifier.
pub open spec fn entries_wf(s: Seq<(String, PoolEntry)>) -> bool {
    forall|i: int, j: int| 0 <= i < j < s.len() ==> (#[trigger] s[i]).0@ != (#[trigger] s[j]).0@
}

proof fn lemma_lookup_at(s: Seq<(String, PoolEntry)>, i: int)
    requires
        0 <= i < s.len(),
        forall|k: int| 0 <= k < i ==> (#[trigger] s[k]).0@ != s[i].0@,
    ensures
        lookup(s, s[i].0@) == Some(s[i].1),
    decreases i,
{
    if i == 0 {
    } else {
        assert(s[0].0@ != s[i].0@);
        let t = s.drop_first();
        assert(t[i - 1] == s[i]);
        assert(forall|k: int| 0 <= k < i - 1 ==> (#[trigger] t[k]).0@ != t[i - 1].0@);
        lemma_lookup_at(t, i - 1);
    }
}

proof fn lemma_lookup_none(s: Seq<(String, PoolEntry)>, id: Seq<char>)
    requires
        forall|k: int| 0 <= k < s.len() ==> (#[trigger] s[k]).0@ != id,
    ensures
        lookup(s, id) is None,
    decreases s.len(),
{
    if s.len() > 0 {
        let t = s.drop_first();
        assert(forall|k: int| 0 <= k < t.len() ==> (#[trigger] t[k]).0@ != id);
        lemma_lookup_none(t, id);
    }
}

proof fn lemma_lookup_update(s: Seq<(String, PoolEntry)>, i: int, t2: (String, PoolEntry))
    requires
        0 <= i < s.len(),
        t2.0@ == s[i].0@,
        forall|k: int| 0 <= k < i ==> (#[trigger] s[k]).0@ != s[i].0@,
    ensures
        lookup(s.update(i, t2), t2.0@) == Some(t2.1),
        forall|other: Seq<char>|
            other != t2.0@ ==> #[trigger] lookup(s.update(i, t2), other) == lookup(s, other),
    decreases i,
{
    if i == 0 {
        assert(s.update(0, t2)[0] == t2);
        assert(s.update(0, t2).drop_first() =~= s.drop_first());
        assert forall|other: Seq<char>| other != t2.0@ implies #[trigger] lookup(
            s.update(i, t2),
            other,
        ) == lookup(s, other) by {
            assert(lookup(s.update(0, t2), other) == lookup(s.drop_first(), other));
            assert(lookup(s, other) == lookup(s.drop_first(), other));
        }
    } else {
        let t = s.drop_first();
        assert(s.update(i, t2)[0] == s[0]);
        assert(s.update(i, t2).drop_first() =~= t.update(i - 1, t2));
        assert(t[i - 1] == s[i]);
        assert(forall|k: int| 0 <= k < i - 1 ==> (#[trigger] t[k]).0@ != t[i - 1].0@);
        lemma_lookup_update(t, i - 1, t2);
        assert(s[0].0@ != t2.0@);
        assert(lookup(s.update(i, t2), t2.0@) == lookup(t.update(i - 1, t2), t2.0@));
        assert forall|other: Seq<char>| other != t2.0@ implies #[trigger] lookup(
            s.update(i, t2),
            other,
        ) == lookup(s, other) by {
            if s[0].0@ == other {
                assert(lookup(s.update(i, t2), other) == Some(s[0].1));
                assert(lookup(s, other) == Some(s[0].1));
            } else {
                assert(lookup(s.update(i, t2), other) == lookup(t.update(i - 1, t2), other));
                assert(lookup(s, other) == lookup(t, other));
            }
        }
    }
}

proof fn lemma_lookup_remove(s: Seq<(String, PoolEntry)>, i: int)
    requires
        0 <= i < s.len(),
        forall|k: int| 0 <= k < s.len() && k != i ==> (#[trigger] s[k]).0@ != s[i].0@,
    ensures
        lookup(s.remove(i), s[i].0@) is None,
        forall|other: Seq<char>|
            other != s[i].0@ ==> #[trigger] lookup(s.remove(i), other) == lookup(s, other),
    decreases i,
{
    if i == 0 {
        assert(s.remove(0) =~= s.drop_first());
        assert(forall|k: int|
            0 <= k < s.drop_first().len() ==> (#[trigger] s.drop_first()[k]).0@ != s[0].0@);
        lemma_lookup_none(s.drop_first(), s[0].0@);
        assert forall|other: Seq<char>| other != s[i].0@ implies #[trigger] lookup(
            s.remove(i),
            other,
        ) == lookup(s, other) by {
            assert(lookup(s, other) == lookup(s.drop_first(), other));
        }
    } else {
        let t = s.drop_first();
        assert(s.remove(i)[0] == s[0]);
        assert(s.remove(i).drop_first() =~= t.remove(i - 1));
        assert(t[i - 1] == s[i]);
        assert(forall|k: int|
            0 <= k < t.len() && k != i - 1 ==> (#[trigger] t[k]).0@ != t[i - 1].0@);
        lemma_lookup_remove(t, i - 1);
        assert(s[0].0@ != s[i].0@);
        assert(lookup(s.remove(i), s[i].0@) == lookup(t.remove(i - 1), s[i].0@));
        assert forall|other: Seq<char>| other != s[i].0@ implies #[trigger] lookup(
            s.remove(i),
            other,
        ) == lookup(s, other) by {
            if s[0].0@ == other {
                assert(lookup(s.remove(i), other) == Some(s[0].1));
                assert(lookup(s, other) == Some(s[0].1));
            } else {
                assert(lookup(s.remove(i), other) == lookup(t.remove(i - 1), other));
                assert(lookup(s, other) == lookup(t, other));
            }
        }
    }
}

proof fn lemma_lookup_push(s: Seq<(String, PoolEntry)>, t: (String, PoolEntry))
    ensures
        lookup(s, t.0@) is None ==> lookup(s.push(t), t.0@) == Some(t.1),
        forall|other: Seq<char>|
            other != t.0@ ==> #[trigger] lookup(s.push(t), other) == lookup(s, other),
    decreases s.len(),
{
    if s.len() == 0 {
        assert(s.push(t)[0] == t);
        assert(s.push(t).drop_first() =~= Seq::<(String, PoolEntry)>::empty());
        assert forall|other: Seq<char>| other != t.0@ implies #[trigger] lookup(
            s.push(t),
            other,
        ) == lookup(s, other) by {
            assert(lookup(s.push(t), other) == lookup(Seq::<(String, PoolEntry)>::empty(), other));
        }
    } else {
        assert(s.push(t)[0] == s[0]);
        assert(s.push(t).drop_first() =~= s.drop_first().push(t));
        lemma_lookup_push(s.drop_first(), t);
        assert forall|other: Seq<char>| other != t.0@ implies #[trigger] lookup(
            s.push(t),
            other,
        ) == lookup(s, other) by {
            if s[0].0@ == other {
                assert(lookup(s.push(t), other) == Some(s[0].1));
            } else {
                assert(lookup(s.push(t), other) == lookup(s.drop_first().push(t), other));
                assert(lookup(s, other) == lookup(s.drop_first(), other));
            }
        }
        if lookup(s, t.0@) is None {
            assert(s[0].0@ != t.0@);
            assert(lookup(s.push(t), t.0@) == lookup(s.drop_first().push(t), t.0@));
        }
    }
}

/// What `get_connection` does next: hand back the cached driver, or fall
/// through to a connect.
pub enum GetConnectionAction {
    UseCached(u64),
    NeedConnect,
}

/// What `ensure_connection` does next under the per-identifier lock: stop
/// because an entry is already cached (another caller just connected), or
/// fetch the config and connect.
pub enum EnsureAction {
    AlreadyCached,
    NeedConnect,
}

/// The connection pool: entries keyed by connection identifier.
pub struct PoolManager {
    entries: Vec<(String, PoolEntry)>,
    next_driver: u64,
}

impl PoolManager {
    pub closed spec fn entries_view(self) -> Seq<(String, PoolEntry)> {
        self.entries@
    }

    pub closed spec fn inv(self) -> bool {
        entries_wf(self.entries@)
    }

    pub closed spec fn next_token(self) -> u64 {
        self.next_driver
    }

    /// How many driver tokens have been handed out; the next token, so a
    /// caller can see the supply is not exhausted before connecting.
    pub fn tokens_used(&self) -> (r: u64)
        ensures
            r == self.next_token(),
    {
        self.next_driver
    }

    /// An empty pool.
    pub fn new() -> (r: PoolManager)
        ensures
            r.inv(),
            r.entries_view().len() == 0,
    {
        PoolManager { entries: Vec::new(), next_driver: 0 }
    }

    fn position_of(&self, id: &str) -> (r: Option<usize>)
        ensures
            r is Some ==> r->0 < self.entries@.len() && self.entries@[r->0 as int].0@ == id@
                && (forall|k: int|
                0 <= k < r->0 ==> (#[trigger] self.entries@[k]).0@ != id@) && lookup(
                self.entries@,
                id@,
            ) == Some(self.entries@[r->0 as int].1),
            r is None ==> lookup(self.entries@, id@) is None,
    {
        let mut i: usize = 0;
        while i < self.entries.len()
            invariant
                i <= self.entries@.len(),
                forall|k: int| 0 <= k < i ==> (#[trigger] self.entries@[k]).0@ != id@,
            decreases self.entries@.len() - i,
        {
            if str_eq(self.entries[i].0.as_str(), id) {
                proof {
                    lemma_lookup_at(self.entries@, i as int);
                }
                return Some(i);
            }
            i += 1;
        }
        proof {
            lemma_lookup_none(self.entries@, id@);
        }
        None
    }

    /// The driver token cached for `id`, if any, whatever its status.
    pub fn get_cached(&self, id: &str) -> (r: Option<u64>)
        ensures
            r == match lookup(self.entries_view(), id@) {
                Option::Some(e) => Some(e.driver),
                Option::None => None::<u64>,
            },
    {
        match self.position_of(id) {
            Option::Some(i) => Some(self.entries[i].1.driver),
            Option::None => None,
        }
    }

    /// The status of `id`: what its entry records, or `Disconnected` when
    /// nothing is cached.
    pub fn get_status(&self, id: &str) -> (r: ConnectionStatus)
        ensures
            r == match lookup(self.entries_view(), id@) {
                Option::Some(e) => e.status,
                Option::None => ConnectionStatus::Disconnected,
            },
    {
        match self.position_of(id) {
            Option::Some(i) => self.entries[i].1.status,
            Option::None => ConnectionStatus::Disconnected,
        }
    }

    /// The last error recorded for `id`, if any.
    pub fn get_last_error(&self, id: &str) -> (r: Option<String>)
        ensures
            r == match lookup(self.entries_view(), id@) {
                Option::Some(e) => e.last_error,
                Option::None => None::<String>,
            },
    {
        match self.position_of(id) {
            Option::Some(i) => match &self.entries[i].1.last_error {
                Option::Some(e) => Some(e.clone()),
                Option::None => None,
            },
            Option::None => None,
        }
    }

    /// The fast path of `get_connection`: the cached driver is used only
    /// when its entry is marked `Connected`; anything else falls through to
    /// a connect.
    pub fn get_connection_plan(&self, id: &str) -> (r: GetConnectionAction)
        ensures
            r is UseCached <==> (lookup(self.entries_view(), id@) is Some && lookup(
                self.entries_view(),
                id@,
            )->0.status is Connected),
            r is UseCached ==> r->UseCached_0 == lookup(self.entries_view(), id@)->0.driver,
    {
        match self.position_of(id) {
            Option::Some(i) => {
                let e = &self.entries[i].1;
                match e.status {
                    ConnectionStatus::Connected => GetConnectionAction::UseCached(e.driver),
                    ConnectionStatus::Disconnected => GetConnectionAction::NeedConnect,
                    ConnectionStatus::Reconnecting => GetConnectionAction::NeedConnect,
                }
            },
            Option::None => GetConnectionAction::NeedConnect,
        }
    }

    /// What `ensure_connection` does under the per-identifier lock: any
    /// cached entry — even one whose connect failed — means another caller
    /// got there first, and no further connect is attempted.
    pub fn ensure_connection_plan(&self, id: &str) -> (r: EnsureAction)
        ensures
            r is AlreadyCached <==> lookup(self.entries_view(), id@) is Some,
    {
        match self.position_of(id) {
            Option::Some(_) => EnsureAction::AlreadyCached,
            Option::None => EnsureAction::NeedConnect,
        }
    }

    /// Mark an existing entry `Reconnecting` before a connect attempt
    /// replaces it. An identifier with no entry is left untouched.
    pub fn begin_connect(&mut self, id: &str)
        requires
            old(self).inv(),
        ensures
            final(self).inv(),
            final(self).next_token() == old(self).next_token(),
            match lookup(old(self).entries_view(), id@) {
                Option::Some(e) => lookup(final(self).entries_view(), id@) == Some(
                    PoolEntry { status: ConnectionStatus::Reconnecting, ..e },
                ),
                Option::None => lookup(final(self).entries_view(), id@) is None,
            },
            forall|other: Seq<char>|
                other != id@ ==> #[trigger] lookup(final(self).entries_view(), other) == lookup(
                    old(self).entries_view(),
                    other,
                ),
    {
        match self.position_of(id) {
            Option::Some(i) => {
                let ghost s0 = self.entries@;
                let mut t = self.entries.remove(i);
                t.1.status = ConnectionStatus::Reconnecting;
                self.entries.insert(i, t);
                proof {
                    assert(self.entries@ =~= s0.update(i as int, self.entries@[i as int]));
                    lemma_lookup_update(s0, i as int, self.entries@[i as int]);
                    assert(forall|a: int, b: int|
                        0 <= a < b < self.entries@.len() ==> (#[trigger] self.entries@[a]).0@ != (
                        #[trigger] self.entries@[b]).0@) by {
                        assert(forall|k: int|
                            0 <= k < self.entries@.len() ==> (#[trigger] self.entries@[k]).0@
                                == s0[k].0@);
                    }
                }
            },
            Option::None => {},
        }
    }

    /// Store the outcome of a connect attempt, replacing any prior entry
    /// for `id`. A successful probe yields `Connected` and the fresh driver
    /// token; a failed one yields a `Disconnected` entry that records the
    /// message, which is also handed back as the error.
    pub fn finish_connect(
        &mut self,
        id: &str,
        config: ConnectionConfig,
        success: bool,
        message: String,
        now: i64,
    ) -> (r: Result<u64, String>)
        requires
            old(self).inv(),
            old(self).next_token() < u64::MAX,
        ensures
            final(self).inv(),
            final(self).next_token() == old(self).next_token() + 1,
            r is Ok <==> success,
            success ==> r->Ok_0 == old(self).next_token(),
            !success ==> r->Err_0@ == message@,
            lookup(final(self).entries_view(), id@) is Some,
            ({
                let e = lookup(final(self).entries_view(), id@)->0;
                &&& e.driver == old(self).next_token()
                &&& e.config == config
                &&& e.status == (if success {
                    ConnectionStatus::Connected
                } else {
                    ConnectionStatus::Disconnected
                })
                &&& e.last_used == now
                &&& (success ==> e.last_error is None)
                &&& (!success ==> e.last_error is Some && e.last_error->0@ == message@)
            }),
            forall|other: Seq<char>|
                other != id@ ==> #[trigger] lookup(final(self).entries_view(), other) == lookup(
                    old(self).entries_view(),
                    other,
                ),
    {
        let token = self.next_driver;
        self.next_driver = self.next_driver + 1;
        let status = if success {
            ConnectionStatus::Connected
        } else {
            ConnectionStatus::Disconnected
        };
        let last_error = if success {
            None
        } else {
            Some(message.clone())
        };
        let entry = PoolEntry { driver: token, config, status, last_used: now, last_error };
        match self.position_of(id) {
            Option::Some(i) => {
                let ghost s0 = self.entries@;
                let t = self.entries.remove(i);
                self.entries.insert(i, (t.0, entry));
                proof {
                    assert(self.entries@ =~= s0.update(i as int, self.entries@[i as int]));
                    lemma_lookup_update(s0, i as int, self.entries@[i as int]);
                    assert(forall|a: int, b: int|
                        0 <= a < b < self.entries@.len() ==> (#[trigger] self.entries@[a]).0@ != (
                        #[trigger] self.entries@[b]).0@) by {
                        assert(forall|k: int|
                            0 <= k < self.entries@.len() ==> (#[trigger] self.entries@[k]).0@
                                == s0[k].0@);
                    }
                }
            },
            Option::None => {
                let ghost s0 = self.entries@;
                let key = id.to_owned();
                self.entries.push((key, entry));
                proof {
                    assert(self.entries@ =~= s0.push(self.entries@[s0.len() as int]));
                    lemma_lookup_push(s0, self.entries@[s0.len() as int]);
                    assert(forall|k: int| 0 <= k < s0.len() ==> (#[trigger] s0[k]).0@ != id@) by {
                        if exists|k: int| 0 <= k < s0.len() && (#[trigger] s0[k]).0@ == id@ {
                            let k = choose|k: int|
                                0 <= k < s0.len() && (#[trigger] s0[k]).0@ == id@;
                            assert(forall|m: int| 0 <= m < k ==> (#[trigger] s0[m]).0@ != id@) by {
                                assert(entries_wf(s0));
                            }
                            lemma_lookup_at(s0, k);
                        }
                    }
                }
            },
        }
        if success {
            Ok(token)
        } else {
            Err(message)
        }
    }

    /// Remove the entry for `id`, handing back its driver token so the
    /// caller can tear the driver (and any tunnel) down.
    pub fn disconnect(&mut self, id: &str) -> (r: Option<u64>)
        requires
            old(self).inv(),
        ensures
            final(self).inv(),
            final(self).next_token() == old(self).next_token(),
            r == match lookup(old(self).entries_view(), id@) {
                Option::Some(e) => Some(e.driver),
                Option::None => None::<u64>,
            },
            lookup(final(self).entries_view(), id@) is None,
            forall|other: Seq<char>|
                other != id@ ==> #[trigger] lookup(final(self).entries_view(), other) == lookup(
                    old(self).entries_view(),
                    other,
                ),
    {
        match self.position_of(id) {
            Option::Some(i) => {
                let ghost s0 = self.entries@;
                let t = self.entries.remove(i);
                proof {
                    assert(forall|k: int|
                        0 <= k < s0.len() && k != i ==> (#[trigger] s0[k]).0@ != s0[i as int].0@)
                        by {
                        assert(entries_wf(s0));
                    }
                    lemma_lookup_remove(s0, i as int);
                    assert(forall|a: int, b: int|
                        0 <= a < b < self.entries@.len() ==> (#[trigger] self.entries@[a]).0@ != (
                        #[trigger] self.entries@[b]).0@) by {
                        assert(entries_wf(s0));
                        assert(forall|k: int|
                            0 <= k < self.entries@.len() ==> self.entries@[k] == (if k < i {
                                s0[k]
                            } else {
                                s0[k + 1]
                            }));
                    }
                }
                Some(t.1.driver)
            },
            Option::None => None,
        }
    }

    /// Update the last-used timestamp of `id`, if cached.
    pub fn touch(&mut self, id: &str, now: i64)
        requires
            old(self).inv(),
        ensures
            final(self).inv(),
            final(self).next_token() == old(self).next_token(),
            match lookup(old(self).entries_view(), id@) {
                Option::Some(e) => lookup(final(self).entries_view(), id@) == Some(
                    PoolEntry { last_used: now, ..e },
                ),
                Option::None => lookup(final(self).entries_view(), id@) is None,
            },
            forall|other: Seq<char>|
                other != id@ ==> #[trigger] lookup(final(self).entries_view(), other) == lookup(
                    old(self).entries_view(),
                    other,
                ),
    {
        match self.position_of(id) {
            Option::Some(i) => {
                let ghost s0 = self.entries@;
                let mut t = self.entries.remove(i);
                t.1.last_used = now;
                self.entries.insert(i, t);
                proof {
                    assert(self.entries@ =~= s0.update(i as int, self.entries@[i as int]));
                    lemma_lookup_update(s0, i as int, self.entries@[i as int]);
                    assert(forall|a: int, b: int|
                        0 <= a < b < self.entries@.len() ==> (#[trigger] self.entries@[a]).0@ != (
                        #[trigger] self.entries@[b]).0@) by {
                        assert(forall|k: int|
                            0 <= k < self.entries@.len() ==> (#[trigger] self.entries@[k]).0@
                                == s0[k].0@);
                    }
                }
            },
            Option::None => {},
        }
    }

    /// Mark `id` disconnected, recording the error, if cached.
    pub fn mark_disconnected(&mut self, id: &str, error: Option<String>)
        requires
            old(self).inv(),
        ensures
            final(self).inv(),
            final(self).next_token() == old(self).next_token(),
            match lookup(old(self).entries_view(), id@) {
                Option::Some(e) => lookup(final(self).entries_view(), id@) == Some(
                    PoolEntry { status: ConnectionStatus::Disconnected, last_error: error, ..e },
                ),
                Option::None => lookup(final(self).entries_view(), id@) is None,
            },
            forall|other: Seq<char>|
                other != id@ ==> #[trigger] lookup(final(self).entries_view(), other) == lookup(
                    old(self).entries_view(),
                    other,
                ),
    {
        match self.position_of(id) {
            Option::Some(i) => {
                let ghost s0 = self.entries@;
                let mut t = self.entries.remove(i);
                t.1.status = ConnectionStatus::Disconnected;
                t.1.last_error = error;
                self.entries.insert(i, t);
                proof {
                    assert(self.entries@ =~= s0.update(i as int, self.entries@[i as int]));
                    lemma_lookup_update(s0, i as int, self.entries@[i as int]);
                    assert(forall|a: int, b: int|
                        0 <= a < b < self.entries@.len() ==> (#[trigger] self.entries@[a]).0@ != (
                        #[trigger] self.entries@[b]).0@) by {
                        assert(forall|k: int|
                            0 <= k < self.entries@.len() ==> (#[trigger] self.entries@[k]).0@
                                == s0[k].0@);
                    }
                }
            },
            Option::None => {},
        }
    }

    /// The driver a health check probes: the cached one, whatever its
    /// status; a missing entry cannot be probed.
    pub fn health_check_plan(&self, id: &str) -> (r: Option<u64>)
        ensures
            r == match lookup(self.entries_view(), id@) {
                Option::Some(e) => Some(e.driver),
                Option::None => None::<u64>,
            },
    {
        self.get_cached(id)
    }

    /// Record a health-check probe's outcome on the cached entry, in
    /// place: the driver is kept, only status and error change.
    pub fn health_check_apply(&mut self, id: &str, success: bool, message: &str)
        requires
            old(self).inv(),
        ensures
            final(self).inv(),
            final(self).next_token() == old(self).next_token(),
            match lookup(old(self).entries_view(), id@) {
                Option::Some(e) => lookup(final(self).entries_view(), id@) is Some && ({
                    let e2 = lookup(final(self).entries_view(), id@)->0;
                    &&& e2.driver == e.driver
                    &&& e2.config == e.config
                    &&& e2.last_used == e.last_used
                    &&& e2.status == (if success {
                        ConnectionStatus::Connected
                    } else {
                        ConnectionStatus::Disconnected
                    })
                    &&& (success ==> e2.last_error is None)
                    &&& (!success ==> e2.last_error is Some && e2.last_error->0@ == message@)
                }),
                Option::None => lookup(final(self).entries_view(), id@) is None,
            },
            forall|other: Seq<char>|
                other != id@ ==> #[trigger] lookup(final(self).entries_view(), other) == lookup(
                    old(self).entries_view(),
                    other,
                ),
    {
        match self.position_of(id) {
            Option::Some(i) => {
                let ghost s0 = self.entries@;
                let mut t = self.entries.remove(i);
                t.1.status = if success {
                    ConnectionStatus::Connected
                } else {
                    ConnectionStatus::Disconnected
                };
                t.1.last_error = if success {
                    None
                } else {
                    Some(message.to_owned())
                };
                self.entries.insert(i, t);
                proof {
                    assert(self.entries@ =~= s0.update(i as int, self.entries@[i as int]));
                    lemma_lookup_update(s0, i as int, self.entries@[i as int]);
                    assert(forall|a: int, b: int|
                        0 <= a < b < self.entries@.len() ==> (#[trigger] self.entries@[a]).0@ != (
                        #[trigger] self.entries@[b]).0@) by {
                        assert(forall|k: int|
                            0 <= k < self.entries@.len() ==> (#[trigger] self.entries@[k]).0@
                                == s0[k].0@);
                    }
                }
            },
            Option::None => {},
        }
    }
}

// ---------------------------------------------------------------------------
// One connect per identifier
// ---------------------------------------------------------------------------

/// A pool state with `e` stored under `key`, as `finish_connect` leaves it.
pub open spec fn with_entry(
    s: Seq<(String, PoolEntry)>,
    key: String,
    e: PoolEntry,
) -> Seq<(String, PoolEntry)> {
    s.push((key, e))
}

/// How many of `n` serialized `ensure_connection` callers connect: each
/// one, under the per-identifier lock, connects only when no entry is
/// cached, and a connect stores one.
pub open spec fn connects_among(
    s: Seq<(String, PoolEntry)>,
    key: String,
    e: PoolEntry,
    n: nat,
) -> int
    decreases n,
{
    if n == 0 {
        0
    } else if lookup(s, key@) is None {
        1 + connects_among(with_entry(s, key, e), key, e, (n - 1) as nat)
    } else {
        connects_among(s, key, e, (n - 1) as nat)
    }
}

/// Of any number of serialized `ensure_connection` callers for one
/// never-before-seen identifier, exactly the first connects: the others
/// find the entry the winner stored — even one whose probe failed — and
/// skip. For an identifier already cached, none connects.
pub proof fn lemma_single_connect(s: Seq<(String, PoolEntry)>, key: String, e: PoolEntry, n: nat)
    ensures
        lookup(s, key@) is None && n > 0 ==> connects_among(s, key, e, n) == 1,
        lookup(s, key@) is Some ==> connects_among(s, key, e, n) == 0,
    decreases n,
{
    if n > 0 {
        if lookup(s, key@) is None {
            lemma_lookup_push(s, (key, e));
            assert(lookup(with_entry(s, key, e), key@) == Some(e));
            lemma_single_connect(with_entry(s, key, e), key, e, (n - 1) as nat);
        } else {
            lemma_single_connect(s, key, e, (n - 1) as nat);
        }
    }
}

// ---------------------------------------------------------------------------
// Retry policy
// ---------------------------------------------------------------------------

/// Does the policy grant a reconnect-and-retry after this many earlier
/// failures of the same operation? Only after the first.
pub open spec fn retry_granted(failures: nat) -> bool {
    failures == 0
}

/// The retry state of one pooled operation: how many attempts have failed.
pub struct OpRetry {
    pub failures: u64,
}

impl OpRetry {
    /// A fresh operation: nothing has failed yet.
    pub fn new() -> (r: OpRetry)
        ensures
            r.failures == 0,
    {
        OpRetry { failures: 0 }
    }

    /// Record one failed attempt. The answer grants a single
    /// reconnect-and-retry after the first failure and nothing after the
    /// second: the second error is surfaced to the caller unmodified.
    pub fn on_failure(&mut self) -> (retry: bool)
        requires
            old(self).failures < u64::MAX,
        ensures
            final(self).failures == old(self).failures + 1,
            retry == retry_granted(old(self).failures as nat),
    {
        let r = self.failures == 0;
        self.failures = self.failures + 1;
        r
    }
}

/// An operation is attempted at most twice: the policy grants a retry
/// after the first failure and refuses one after the second, so a second
/// consecutive failure is final.
pub proof fn lemma_retry_exactly_once()
    ensures
        retry_granted(0),
        forall|f: nat| f >= 1 ==> !retry_granted(f),
{
}

} // verus!
