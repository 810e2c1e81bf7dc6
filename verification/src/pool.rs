//! The connection pool: idle connections are kept per target in 64 shards,
//! handed back to the next request for the same target while fresh, and
//! bounded in number per shard.
use std::collections::hash_map::DefaultHasher;
use std::hash::Hasher;
use vstd::prelude::*;
use vstd::std_specs::hash::DefaultHasherAdditionalSpecFns;

use crate::config::{duration_nanos, ProxyConfig};
use crate::proxy::request::DEFAULT_TARGET_PORT;
use crate::text::{decimal, lemma_decimal_injective, push_decimal, str_equal};

verus! {

/// Number of shards the pool is split into.
pub const SHARDS: usize = 64;

/// The text standing for a missing scheme or host in a pool key.
pub open spec fn or_default(o: Option<&str>, default: Seq<char>) -> Seq<char> {
    match o {
        Some(s) => s@,
        None => default,
    }
}

/// The port a target is reached on: its own, or 443 when it names none.
pub open spec fn effective_port(port: Option<u16>) -> u16 {
    match port {
        Some(p) => p,
        None => DEFAULT_TARGET_PORT,
    }
}

/// The pool key of a target: `scheme://host:port`, with `https` and `unknown`
/// standing in for a missing scheme or host, and the port the tunnel is opened
/// to (443 when the target names none).
pub open spec fn target_key_text(scheme: Option<&str>, host: Option<&str>, port: Option<u16>) -> Seq<char> {
    or_default(scheme, "https"@) + "://"@ + or_default(host, "unknown"@) + ":"@ + decimal(
        effective_port(port) as nat,
    )
}

/// The pool key under which connections to a target are kept. Targets that
/// differ in scheme, host or port get different keys.
pub fn target_key(scheme: Option<&str>, host: Option<&str>, port: Option<u16>) -> (r: String)
    ensures
        r@ == target_key_text(scheme, host, port),
{
    let mut key = match scheme {
        Some(s) => String::from_str(s),
        None => String::from_str("https"),
    };
    key.append("://");
    match host {
        Some(h) => key.append(h),
        None => key.append("unknown"),
    }
    key.append(":");
    let p = match port {
        Some(p) => p,
        None => DEFAULT_TARGET_PORT,
    };
    push_decimal(&mut key, p);
    assert(key@ =~= target_key_text(scheme, host, port));
    key
}

/// The shard of a key: the `DefaultHasher` hash of the key (as `str` hashes:
/// its UTF-8 bytes, then the byte `0xff`) modulo the number of shards.
pub open spec fn shard_of(key: Seq<char>) -> int {
    DefaultHasher::spec_finish(seq![vstd::utf8::encode_utf8(key), seq![0xffu8]]) as int % (SHARDS as int)
}

/// The shard that holds the connections for `key`.
pub fn shard_index(key: &str) -> (r: usize)
    ensures
        r as int == shard_of(key@),
        r < SHARDS,
{
    let mut hasher = DefaultHasher::new();
    let bytes = key.as_bytes();
    assert(bytes@ == vstd::utf8::encode_utf8(key@));
    hasher.write(bytes);
    let tag: Vec<u8> = vec![0xffu8];
    let tag_slice = tag.as_slice();
    assert(tag_slice@ =~= seq![0xffu8]);
    hasher.write(tag_slice);
    let h = hasher.finish();
    assert(hasher@ =~= seq![vstd::utf8::encode_utf8(key@), seq![0xffu8]]);
    (h % 64) as usize
}

/// How many idle connections one shard keeps for a pool limit of `pool_max_size`.
pub open spec fn shard_limit(pool_max_size: nat) -> nat {
    pool_max_size / (SHARDS as nat) + 1
}

/// How many idle connections one shard keeps: the pool limit spread over the
/// shards, rounded down, plus one.
pub fn limit_per_shard(pool_max_size: usize) -> (r: usize)
    ensures
        r == shard_limit(pool_max_size as nat),
{
    pool_max_size / SHARDS + 1
}

/// Law: a shard keeps `pool_max_size / 64 + 1` connections: the 64 shards
/// together keep more than the pool limit, but less than 64 over it; and
/// pool keys of targets without a port use 443, the port a tunnel is opened
/// to by default, as proxies without a port use 8080.
pub proof fn lemma_shard_limit_and_default_ports(pool_max_size: nat, scheme: Option<&str>, host: Option<&str>)
    ensures
        64 * shard_limit(pool_max_size) > pool_max_size,
        64 * shard_limit(pool_max_size) <= pool_max_size + 64,
        shard_limit(pool_max_size) >= 1,
        DEFAULT_TARGET_PORT == 443,
        crate::proxy::request::DEFAULT_PROXY_PORT == 8080,
        target_key_text(scheme, host, None) == target_key_text(scheme, host, Some(443)),
{
    let q = pool_max_size / 64;
    assert(pool_max_size == 64 * q + pool_max_size % 64);
    assert(64 * (q + 1) == 64 * q + 64) by (nonlinear_arith);
}

/// Law: the shards together can keep more connections than the configured
/// pool limit.
pub proof fn lemma_shards_cover_pool_limit(pool_max_size: nat)
    ensures
        (SHARDS as nat) * shard_limit(pool_max_size) > pool_max_size,
{
    let q = pool_max_size / 64;
    assert(pool_max_size == 64 * q + pool_max_size % 64);
    assert(64 * (q + 1) == 64 * q + 64) by (nonlinear_arith);
}

/// A connection released at `last_used` is still fresh at `now` when less than
/// `idle_timeout` has passed (no time has passed if `now` is earlier).
pub open spec fn is_fresh(last_used: u128, now: u128, idle_timeout: u128) -> bool {
    (if now >= last_used { now - last_used } else { 0 }) < idle_timeout
}

/// What taking `key` from a shard with contents `m` at `now` hands back: the
/// pooled connection if there is one, it is fresh, and it was observed to be
/// alive; otherwise nothing.
pub open spec fn take_outcome<C>(
    m: Map<Seq<char>, (C, u128)>,
    key: Seq<char>,
    now: u128,
    idle_timeout: u128,
    alive: bool,
) -> Option<C> {
    if m.contains_key(key) && is_fresh(m[key].1, now, idle_timeout) && alive {
        Some(m[key].0)
    } else {
        None
    }
}

/// An idle connection kept in the pool.
struct PoolEntry<C> {
    key: String,
    conn: C,
    last_used: u128,
}

/// One shard of the pool: idle connections by target key, each with the time
/// at which it was released (in nanoseconds on the caller's clock).
pub struct PoolShard<C> {
    entries: Vec<PoolEntry<C>>,
    limit: usize,
    idle_timeout: u128,
    contents: Ghost<Map<Seq<char>, (C, u128)>>,
}

/// `entries` hold exactly `contents`, with no key twice, and there are at
/// most `limit` of them.
spec fn entries_hold<C>(entries: Seq<PoolEntry<C>>, contents: Map<Seq<char>, (C, u128)>, limit: usize) -> bool {
    &&& contents.dom().finite()
    &&& contents.dom().len() == entries.len()
    &&& entries.len() <= limit
    &&& forall|i: int| 0 <= i < entries.len() ==> {
        &&& #[trigger] contents.contains_key(entries[i].key@)
        &&& contents[entries[i].key@] == (entries[i].conn, entries[i].last_used)
    }
    &&& forall|i: int, j: int|
        0 <= i < entries.len() && 0 <= j < entries.len() && i != j
            ==> #[trigger] entries[i].key@ != #[trigger] entries[j].key@
    &&& forall|k: Seq<char>| #[trigger] contents.contains_key(k)
        ==> exists|i: int| 0 <= i < entries.len() && #[trigger] entries[i].key@ == k
}

/// Removing the entry at `i` (moving the last entry into its place) removes its
/// key from the contents.
proof fn lemma_swap_remove_holds<C>(
    entries: Seq<PoolEntry<C>>,
    contents: Map<Seq<char>, (C, u128)>,
    limit: usize,
    i: int,
)
    requires
        entries_hold(entries, contents, limit),
        0 <= i < entries.len(),
    ensures
        entries_hold(
            entries.update(i, entries.last()).drop_last(),
            contents.remove(entries[i].key@),
            limit,
        ),
{
    let n = entries.len();
    let ne = entries.update(i, entries.last()).drop_last();
    let nc = contents.remove(entries[i].key@);
    let key = entries[i].key@;
    assert forall|a: int| 0 <= a < ne.len() implies {
        &&& #[trigger] nc.contains_key(ne[a].key@)
        &&& nc[ne[a].key@] == (ne[a].conn, ne[a].last_used)
    } by {
        let src = if a == i { n - 1 } else { a };
        assert(ne[a] == entries[src]);
        assert(entries[src].key@ != key);
        assert(contents.contains_key(entries[src].key@));
    }
    assert forall|a: int, b: int| 0 <= a < ne.len() && 0 <= b < ne.len() && a != b
        implies #[trigger] ne[a].key@ != #[trigger] ne[b].key@ by {
        let sa = if a == i { n - 1 } else { a };
        let sb = if b == i { n - 1 } else { b };
        assert(ne[a] == entries[sa]);
        assert(ne[b] == entries[sb]);
    }
    assert forall|k: Seq<char>| #[trigger] nc.contains_key(k)
        implies exists|a: int| 0 <= a < ne.len() && #[trigger] ne[a].key@ == k by {
        let j = choose|j: int| 0 <= j < entries.len() && #[trigger] entries[j].key@ == k;
        assert(j != i);
        let a = if j == n - 1 { i } else { j };
        assert(ne[a] == entries[j]);
    }
}

/// Replacing the entry at `i` by one with the same key updates that key.
proof fn lemma_set_holds<C>(
    entries: Seq<PoolEntry<C>>,
    contents: Map<Seq<char>, (C, u128)>,
    limit: usize,
    i: int,
    e: PoolEntry<C>,
)
    requires
        entries_hold(entries, contents, limit),
        0 <= i < entries.len(),
        e.key@ == entries[i].key@,
    ensures
        entries_hold(entries.update(i, e), contents.insert(e.key@, (e.conn, e.last_used)), limit),
{
    let ne = entries.update(i, e);
    let nc = contents.insert(e.key@, (e.conn, e.last_used));
    assert(contents.contains_key(e.key@));
    assert(nc.dom() =~= contents.dom());
    assert forall|a: int| 0 <= a < ne.len() implies {
        &&& #[trigger] nc.contains_key(ne[a].key@)
        &&& nc[ne[a].key@] == (ne[a].conn, ne[a].last_used)
    } by {
        if a != i {
            assert(entries[a].key@ != entries[i].key@);
            assert(contents.contains_key(entries[a].key@));
        }
    }
    assert forall|a: int, b: int| 0 <= a < ne.len() && 0 <= b < ne.len() && a != b
        implies #[trigger] ne[a].key@ != #[trigger] ne[b].key@ by {
        assert(ne[a].key@ == entries[a].key@);
        assert(ne[b].key@ == entries[b].key@);
    }
    assert forall|k: Seq<char>| #[trigger] nc.contains_key(k)
        implies exists|a: int| 0 <= a < ne.len() && #[trigger] ne[a].key@ == k by {
        let j = choose|j: int| 0 <= j < entries.len() && #[trigger] entries[j].key@ == k;
        assert(ne[j].key@ == entries[j].key@);
    }
}

/// Appending an entry with a new key, below the limit, adds that key.
proof fn lemma_push_holds<C>(
    entries: Seq<PoolEntry<C>>,
    contents: Map<Seq<char>, (C, u128)>,
    limit: usize,
    e: PoolEntry<C>,
)
    requires
        entries_hold(entries, contents, limit),
        entries.len() < limit,
        !contents.contains_key(e.key@),
    ensures
        entries_hold(entries.push(e), contents.insert(e.key@, (e.conn, e.last_used)), limit),
{
    let n = entries.len();
    let ne = entries.push(e);
    let nc = contents.insert(e.key@, (e.conn, e.last_used));
    assert forall|a: int| 0 <= a < ne.len() implies {
        &&& #[trigger] nc.contains_key(ne[a].key@)
        &&& nc[ne[a].key@] == (ne[a].conn, ne[a].last_used)
    } by {
        if a < n {
            assert(contents.contains_key(entries[a].key@));
        }
    }
    assert forall|a: int, b: int| 0 <= a < ne.len() && 0 <= b < ne.len() && a != b
        implies #[trigger] ne[a].key@ != #[trigger] ne[b].key@ by {
        if a < n {
            assert(contents.contains_key(entries[a].key@));
        }
        if b < n {
            assert(contents.contains_key(entries[b].key@));
        }
    }
    assert forall|k: Seq<char>| #[trigger] nc.contains_key(k)
        implies exists|a: int| 0 <= a < ne.len() && #[trigger] ne[a].key@ == k by {
        if k == e.key@ {
            assert(ne[n as int].key@ == k);
        } else {
            let j = choose|j: int| 0 <= j < entries.len() && #[trigger] entries[j].key@ == k;
            assert(ne[j] == entries[j]);
        }
    }
}

impl<C> View for PoolShard<C> {
    type V = Map<Seq<char>, (C, u128)>;

    /// The pooled connections: target key to connection and release time.
    closed spec fn view(&self) -> Map<Seq<char>, (C, u128)> {
        self.contents@
    }
}

impl<C> PoolShard<C> {
    /// The shard's internal consistency: the entries hold exactly the view,
    /// with no key twice, and no more entries than the limit.
    #[verifier::type_invariant]
    spec fn consistent(&self) -> bool {
        entries_hold(self.entries@, self.contents@, self.limit)
    }

    /// The most connections the shard keeps.
    pub closed spec fn max_entries(&self) -> nat {
        self.limit as nat
    }

    /// How long a pooled connection stays reusable, in nanoseconds.
    pub closed spec fn idle_timeout_spec(&self) -> u128 {
        self.idle_timeout
    }

    /// An empty shard keeping at most `limit` connections, each reusable for
    /// `idle_timeout` nanoseconds after its release.
    pub fn new(limit: usize, idle_timeout: u128) -> (r: Self)
        ensures
            r@ == Map::<Seq<char>, (C, u128)>::empty(),
            r.max_entries() == limit,
            r.idle_timeout_spec() == idle_timeout,
    {
        PoolShard { entries: Vec::new(), limit, idle_timeout, contents: Ghost(Map::empty()) }
    }

    /// An empty shard set up as `config` asks: at most
    /// [`limit_per_shard`] of the pool limit, each connection reusable for the
    /// configured idle timeout (counted in nanoseconds).
    pub fn for_config(config: &ProxyConfig) -> (r: Self)
        ensures
            r@ == Map::<Seq<char>, (C, u128)>::empty(),
            r.max_entries() == shard_limit(config.pool_max_size as nat),
            r.idle_timeout_spec() == duration_nanos(config.pool_idle_timeout),
    {
        PoolShard::new(limit_per_shard(config.pool_max_size), config.pool_idle_timeout.as_nanos())
    }

    /// The number of pooled connections; never more than the limit.
    pub fn len(&self) -> (r: usize)
        ensures
            r == self@.dom().len(),
            r <= self.max_entries(),
    {
        proof { use_type_invariant(self); }
        self.entries.len()
    }

    /// The index of the entry for `key`, if any.
    fn position(&self, key: &str) -> (r: Option<usize>)
        ensures
            match r {
                Some(i) => i < self.entries@.len() && self.entries@[i as int].key@ == key@,
                None => !self@.contains_key(key@),
            },
    {
        proof { use_type_invariant(self); }
        let n = self.entries.len();
        let mut i: usize = 0;
        while i < n
            invariant
                entries_hold(self.entries@, self.contents@, self.limit),
                n == self.entries@.len(),
                i <= n,
                forall|j: int| 0 <= j < i ==> #[trigger] self.entries@[j].key@ != key@,
            decreases n - i,
        {
            if str_equal(self.entries[i].key.as_str(), key) {
                return Some(i);
            }
            i = i + 1;
        }
        assert(!self@.contains_key(key@)) by {
            if self@.contains_key(key@) {
                let j = choose|j: int| 0 <= j < self.entries@.len() && #[trigger] self.entries@[j].key@ == key@;
                assert(self.entries@[j].key@ == key@);
            }
        }
        None
    }

    /// The connection pooled for `key`, left in place, so that the caller can
    /// observe whether it is still alive before taking it.
    pub fn peek(&self, key: &str) -> (r: Option<&C>)
        ensures
            match r {
                Some(c) => self@.contains_key(key@) && *c == self@[key@].0,
                None => !self@.contains_key(key@),
            },
    {
        proof { use_type_invariant(self); }
        match self.position(key) {
            Some(i) => Some(&self.entries[i].conn),
            None => None,
        }
    }

    /// Takes the connection pooled for `key` out of the shard. It is handed
    /// back if it is still fresh at `now` and the caller observed it to be
    /// `alive`; a stale or dead one is dropped.
    pub fn take(&mut self, key: &str, now: u128, alive: bool) -> (r: Option<C>)
        ensures
            final(self)@ == old(self)@.remove(key@),
            r == take_outcome(old(self)@, key@, now, old(self).idle_timeout_spec(), alive),
            final(self).max_entries() == old(self).max_entries(),
            final(self).idle_timeout_spec() == old(self).idle_timeout_spec(),
    {
        proof { use_type_invariant(&*self); }
        match self.position(key) {
            None => {
                assert(self@.remove(key@) =~= self@);
                None
            },
            Some(i) => {
                let mut shard = PoolShard::new(self.limit, self.idle_timeout);
                std::mem::swap(&mut shard, self);
                proof { use_type_invariant(&shard); }
                let PoolShard { mut entries, limit, idle_timeout, contents } = shard;
                let ghost old_entries = entries@;
                let entry = entries.swap_remove(i);
                proof {
                    lemma_swap_remove_holds(old_entries, contents@, limit, i as int);
                    assert(contents@.contains_key(old_entries[i as int].key@));
                }
                *self = PoolShard { entries, limit, idle_timeout, contents: Ghost(contents@.remove(key@)) };
                let elapsed = if now >= entry.last_used { now - entry.last_used } else { 0 };
                if elapsed < idle_timeout && alive {
                    Some(entry.conn)
                } else {
                    None
                }
            },
        }
    }

    /// Offers `conn` for reuse under `key`, released at `now`. It is kept
    /// (replacing any connection already pooled for `key`) when the shard holds
    /// fewer connections than its limit, and dropped otherwise.
    pub fn put(&mut self, key: String, conn: C, now: u128) -> (kept: bool)
        ensures
            kept == (old(self)@.dom().len() < old(self).max_entries()),
            kept ==> final(self)@ == old(self)@.insert(key@, (conn, now)),
            !kept ==> final(self)@ == old(self)@,
            final(self)@.dom().len() <= final(self).max_entries(),
            final(self).max_entries() == old(self).max_entries(),
            final(self).idle_timeout_spec() == old(self).idle_timeout_spec(),
    {
        proof { use_type_invariant(&*self); }
        if self.entries.len() >= self.limit {
            return false;
        }
        let pos = self.position(key.as_str());
        let mut shard = PoolShard::new(self.limit, self.idle_timeout);
        std::mem::swap(&mut shard, self);
        proof { use_type_invariant(&shard); }
        let PoolShard { mut entries, limit, idle_timeout, contents } = shard;
        let ghost old_entries = entries@;
        let ghost k = key@;
        let entry = PoolEntry { key, conn, last_used: now };
        let ghost e = entry;
        match pos {
            Some(i) => {
                entries.set(i, entry);
                proof { lemma_set_holds(old_entries, contents@, limit, i as int, e); }
            },
            None => {
                entries.push(entry);
                proof { lemma_push_holds(old_entries, contents@, limit, e); }
            },
        }
        *self = PoolShard { entries, limit, idle_timeout, contents: Ghost(contents@.insert(k, (conn, now))) };
        true
    }
}

/// Law: a connection released into a shard with room is handed back to the
/// next request for the same target while it is fresh and alive.
pub proof fn lemma_released_connection_is_reused<C>(
    m: Map<Seq<char>, (C, u128)>,
    key: Seq<char>,
    conn: C,
    released_at: u128,
    now: u128,
    idle_timeout: u128,
)
    requires
        is_fresh(released_at, now, idle_timeout),
    ensures
        take_outcome(m.insert(key, (conn, released_at)), key, now, idle_timeout, true) == Some(conn),
{
}

/// Law: a live connection released at `t` is handed back to the next request
/// for its key at `now` exactly when it has been idle for less than the idle
/// timeout: `now - t < idle_timeout` (a clock that went back counts as no time
/// idle), for every idle timeout.
pub proof fn lemma_reused_exactly_within_idle_timeout<C>(
    m: Map<Seq<char>, (C, u128)>,
    key: Seq<char>,
    conn: C,
    t: u128,
    now: u128,
    idle_timeout: u128,
)
    ensures
        t <= now && now - t < idle_timeout ==> take_outcome(m.insert(key, (conn, t)), key, now, idle_timeout, true)
            == Some(conn),
        now < t && 0 < idle_timeout ==> take_outcome(m.insert(key, (conn, t)), key, now, idle_timeout, true)
            == Some(conn),
        t <= now && now - t >= idle_timeout ==> take_outcome(m.insert(key, (conn, t)), key, now, idle_timeout, true)
            is None,
{
}

/// Law: a pooled connection is handed out at most once; taking the same key
/// again finds nothing.
pub proof fn lemma_taken_connection_is_gone<C>(
    m: Map<Seq<char>, (C, u128)>,
    key: Seq<char>,
    now: u128,
    idle_timeout: u128,
    alive: bool,
)
    ensures
        take_outcome(m.remove(key), key, now, idle_timeout, alive) is None,
{
}

/// Law: a connection that has been idle for the idle timeout or longer is
/// never handed back.
pub proof fn lemma_stale_connection_is_not_reused<C>(
    m: Map<Seq<char>, (C, u128)>,
    key: Seq<char>,
    now: u128,
    idle_timeout: u128,
    alive: bool,
)
    requires
        m.contains_key(key),
        now >= m[key].1,
        now - m[key].1 >= idle_timeout,
    ensures
        take_outcome(m, key, now, idle_timeout, alive) is None,
{
}

/// Law: targets that differ only in the port they are reached on get different
/// pool keys, so a connection to one port is never handed to another.
pub proof fn lemma_keys_differ_by_port(
    scheme: Option<&str>,
    host: Option<&str>,
    port_a: Option<u16>,
    port_b: Option<u16>,
)
    requires
        effective_port(port_a) != effective_port(port_b),
    ensures
        target_key_text(scheme, host, port_a) != target_key_text(scheme, host, port_b),
{
    let prefix = or_default(scheme, "https"@) + "://"@ + or_default(host, "unknown"@) + ":"@;
    let da = decimal(effective_port(port_a) as nat);
    let db = decimal(effective_port(port_b) as nat);
    if target_key_text(scheme, host, port_a) == target_key_text(scheme, host, port_b) {
        let whole = prefix + da;
        assert(whole.subrange(prefix.len() as int, whole.len() as int) =~= da);
        assert((prefix + db).subrange(prefix.len() as int, (prefix + db).len() as int) =~= db);
        lemma_decimal_injective(effective_port(port_a) as nat, effective_port(port_b) as nat);
    }
}

/// Law: a connection observed to be dead (its peer closed it) is never handed
/// back, however fresh.
pub proof fn lemma_dead_connection_is_not_reused<C>(
    m: Map<Seq<char>, (C, u128)>,
    key: Seq<char>,
    now: u128,
    idle_timeout: u128,
)
    ensures
        take_outcome(m, key, now, idle_timeout, false) is None,
{
}

} // verus!
