//! The response cache, its counters, and the buffer that collects responses
//! before they are written.
//!
//! The cache keeps its entries in an `lru::LruCache`. Its contents are named
//! by [`lru_entries`], most recently used first. Four functions call the
//! collection; Verus does not read their bodies, and their contracts, which
//! say what each call does to the contents, are taken on trust.

use vstd::prelude::*;
use crate::json::{json_model, JsonModel};

verus! {

/// `lru::LruCache`, carried through without a look inside.
#[verifier::external_type_specification]
#[verifier::external_body]
#[verifier::reject_recursive_types(K)]
#[verifier::reject_recursive_types(V)]
#[verifier::reject_recursive_types(S)]
pub struct ExLruCache<K, V, S>(lru::LruCache<K, V, S>);

/// `lru::DefaultHasher`, the hasher of a cache made with `LruCache::new`.
#[verifier::external_type_specification]
#[verifier::external_body]
pub struct ExLruHasher(lru::DefaultHasher);

/// One cache entry as contracts see it.
pub struct EntryModel {
    pub key: Seq<char>,
    pub value: JsonModel,
    pub expires_at: u64,
}

/// The entries of the collection, most recently used first.
pub uninterp spec fn lru_entries(c: lru::LruCache<String, (serde_json::Value, u64)>) -> Seq<EntryModel>;

/// The number of entries that the collection was made to hold.
pub uninterp spec fn lru_capacity(c: lru::LruCache<String, (serde_json::Value, u64)>) -> nat;

/// Whether some entry has the key.
pub open spec fn has_key(entries: Seq<EntryModel>, key: Seq<char>) -> bool {
    exists|i: int| 0 <= i < entries.len() && (#[trigger] entries[i]).key == key
}

/// The place of an entry with the key.
pub open spec fn index_of(entries: Seq<EntryModel>, key: Seq<char>) -> int {
    choose|i: int| 0 <= i < entries.len() && (#[trigger] entries[i]).key == key
}

/// The entry under a key, if there is one.
pub open spec fn entry_of(entries: Seq<EntryModel>, key: Seq<char>) -> Option<EntryModel> {
    if has_key(entries, key) {
        Some(entries[index_of(entries, key)])
    } else {
        None
    }
}

/// No two entries share a key.
pub open spec fn distinct_keys(entries: Seq<EntryModel>) -> bool {
    forall|i: int, j: int|
        0 <= i < j < entries.len() ==> (#[trigger] entries[i]).key != (#[trigger] entries[j]).key
}

/// The entries after a use of `key`: its entry moves to the front.
pub open spec fn touched(entries: Seq<EntryModel>, key: Seq<char>) -> Seq<EntryModel> {
    if has_key(entries, key) {
        seq![entries[index_of(entries, key)]] + entries.remove(index_of(entries, key))
    } else {
        entries
    }
}

/// The entries without the one under `key`.
pub open spec fn without(entries: Seq<EntryModel>, key: Seq<char>) -> Seq<EntryModel> {
    if has_key(entries, key) {
        entries.remove(index_of(entries, key))
    } else {
        entries
    }
}

/// The entries after `entry` is stored in a collection that holds at most
/// `capacity`: it replaces the entry with its key, or else, in a full
/// collection, the least recently used one; it stands first afterwards.
pub open spec fn stored(entries: Seq<EntryModel>, capacity: nat, entry: EntryModel) -> Seq<EntryModel> {
    if has_key(entries, entry.key) {
        seq![entry] + entries.remove(index_of(entries, entry.key))
    } else if entries.len() >= capacity && entries.len() > 0 {
        seq![entry] + entries.drop_last()
    } else {
        seq![entry] + entries
    }
}

/// Whether storing under `key` takes an entry out: the one with that key, or
/// the least recently used one of a full collection.
pub open spec fn displaces(entries: Seq<EntryModel>, capacity: nat, key: Seq<char>) -> bool {
    has_key(entries, key) || (entries.len() >= capacity && entries.len() > 0)
}

/// The largest capacity of a cache. `LruCache::new` lays out a table for as
/// many entries as the cache may hold; up to this number the size of that
/// table can be computed on every machine.
pub const MAX_CAPACITY: usize = 16777216;

/// `LruCache::new`: an empty collection for `capacity` entries. The call
/// panics on a capacity of zero, and on one whose table is too large to lay
/// out.
#[verifier::external_body]
fn lru_new(capacity: usize) -> (c: lru::LruCache<String, (serde_json::Value, u64)>)
    requires
        0 < capacity <= MAX_CAPACITY,
    ensures
        lru_entries(c) == Seq::<EntryModel>::empty(),
        lru_capacity(c) == capacity,
{
    lru::LruCache::new(std::num::NonZeroUsize::new(capacity).unwrap())
}

/// `LruCache::get`, the entry cloned: the entry under `key`, which moves to
/// the front; nothing, and no change, where the key is absent.
#[verifier::external_body]
fn lru_get(c: &mut lru::LruCache<String, (serde_json::Value, u64)>, key: &str) -> (r: Option<
    (serde_json::Value, u64),
>)
    ensures
        lru_capacity(*final(c)) == lru_capacity(*old(c)),
        lru_entries(*final(c)) == touched(lru_entries(*old(c)), key@),
        match entry_of(lru_entries(*old(c)), key@) {
            Some(entry) => r is Some && json_model(r.unwrap().0) == entry.value && r.unwrap().1 == entry.expires_at,
            None => r is None,
        },
{
    c.get(key).cloned()
}

/// `LruCache::pop`: takes the entry under `key` out and hands its value
/// back; nothing, and no change, where the key is absent.
#[verifier::external_body]
fn lru_pop(c: &mut lru::LruCache<String, (serde_json::Value, u64)>, key: &str) -> (r: Option<
    (serde_json::Value, u64),
>)
    ensures
        lru_capacity(*final(c)) == lru_capacity(*old(c)),
        lru_entries(*final(c)) == without(lru_entries(*old(c)), key@),
        r is Some == has_key(lru_entries(*old(c)), key@),
{
    c.pop(key)
}

/// `LruCache::push`: stores the entry at the front. It hands back the entry
/// that had the key, or else the least recently used entry where the
/// collection was full, and nothing where no entry had to leave.
#[verifier::external_body]
fn lru_push(
    c: &mut lru::LruCache<String, (serde_json::Value, u64)>,
    key: String,
    value: (serde_json::Value, u64),
) -> (r: Option<(String, (serde_json::Value, u64))>)
    ensures
        lru_capacity(*final(c)) == lru_capacity(*old(c)),
        lru_entries(*final(c)) == stored(
            lru_entries(*old(c)),
            lru_capacity(*old(c)),
            EntryModel { key: key@, value: json_model(value.0), expires_at: value.1 },
        ),
        r is Some == displaces(lru_entries(*old(c)), lru_capacity(*old(c)), key@),
{
    c.push(key, value)
}

/// Counters of cache hits, misses and evictions. Each only grows, and wraps
/// to zero past the largest value.
pub struct CacheMetrics {
    pub hits: u64,
    pub misses: u64,
    pub evictions: u64,
}

/// A counter's value after one more event.
pub open spec fn bumped(n: u64) -> u64 {
    if n == u64::MAX {
        0
    } else {
        (n + 1) as u64
    }
}

fn bump(n: u64) -> (m: u64)
    ensures
        m == bumped(n),
{
    if n == u64::MAX {
        0
    } else {
        n + 1
    }
}

impl CacheMetrics {
    /// Counters at zero.
    pub fn new() -> (m: CacheMetrics)
        ensures
            m.hits == 0,
            m.misses == 0,
            m.evictions == 0,
    {
        CacheMetrics { hits: 0, misses: 0, evictions: 0 }
    }

    /// Counts one hit.
    pub fn record_hit(&mut self)
        ensures
            final(self).hits == bumped(old(self).hits),
            final(self).misses == old(self).misses,
            final(self).evictions == old(self).evictions,
    {
        self.hits = bump(self.hits);
    }

    /// Counts one miss.
    pub fn record_miss(&mut self)
        ensures
            final(self).hits == old(self).hits,
            final(self).misses == bumped(old(self).misses),
            final(self).evictions == old(self).evictions,
    {
        self.misses = bump(self.misses);
    }

    /// Counts one eviction.
    pub fn record_eviction(&mut self)
        ensures
            final(self).hits == old(self).hits,
            final(self).misses == old(self).misses,
            final(self).evictions == bumped(old(self).evictions),
    {
        self.evictions = bump(self.evictions);
    }

    /// The counters as they stand: hits, misses, evictions.
    pub fn get_stats(&self) -> (stats: (u64, u64, u64))
        ensures
            stats == (self.hits, self.misses, self.evictions),
    {
        (self.hits, self.misses, self.evictions)
    }
}

/// Responses by request line, each kept until its time of expiry, at most
/// `capacity` of them, the least recently used leaving first. Times are
/// milliseconds on the caller's clock.
pub struct ResponseCache {
    cache: lru::LruCache<String, (serde_json::Value, u64)>,
    ttl: u64,
    metrics: CacheMetrics,
}

/// The value that a lookup of `key` at time `now` returns: that of the entry
/// under the key, unless it has expired.
pub open spec fn live_value(entries: Seq<EntryModel>, key: Seq<char>, now: u64) -> Option<JsonModel> {
    match entry_of(entries, key) {
        Some(entry) => if entry.expires_at > now {
            Some(entry.value)
        } else {
            None
        },
        None => None,
    }
}

/// The entries after a lookup of `key` at time `now`: a live entry moves to
/// the front, an expired one leaves.
pub open spec fn after_lookup(entries: Seq<EntryModel>, key: Seq<char>, now: u64) -> Seq<EntryModel> {
    if live_value(entries, key, now) is Some {
        touched(entries, key)
    } else {
        without(entries, key)
    }
}

/// The counters after a lookup of `key` at time `now`: a hit for a live
/// entry; an eviction and a miss for an expired one; a miss for an absent
/// key.
pub open spec fn counted_lookup(
    counters: CacheMetrics,
    entries: Seq<EntryModel>,
    key: Seq<char>,
    now: u64,
) -> CacheMetrics {
    if live_value(entries, key, now) is Some {
        CacheMetrics { hits: bumped(counters.hits), ..counters }
    } else if has_key(entries, key) {
        CacheMetrics { misses: bumped(counters.misses), evictions: bumped(counters.evictions), ..counters }
    } else {
        CacheMetrics { misses: bumped(counters.misses), ..counters }
    }
}

/// The counters after an entry is stored under `key`: an eviction where that
/// takes an entry out.
pub open spec fn counted_store(
    counters: CacheMetrics,
    entries: Seq<EntryModel>,
    capacity: nat,
    key: Seq<char>,
) -> CacheMetrics {
    if displaces(entries, capacity, key) {
        CacheMetrics { evictions: bumped(counters.evictions), ..counters }
    } else {
        counters
    }
}

/// The tree of an optional value.
pub open spec fn option_model(v: Option<serde_json::Value>) -> Option<JsonModel> {
    match v {
        Some(x) => Some(json_model(x)),
        None => None,
    }
}

/// The time at which an entry written at `now` expires.
pub open spec fn expiry(now: u64, ttl: u64) -> u64 {
    if now + ttl > u64::MAX {
        u64::MAX
    } else {
        (now + ttl) as u64
    }
}

impl ResponseCache {
    /// The entries, most recently used first.
    pub closed spec fn entries(&self) -> Seq<EntryModel> {
        lru_entries(self.cache)
    }

    /// The most entries held at once.
    pub closed spec fn capacity(&self) -> nat {
        lru_capacity(self.cache)
    }

    /// How long an entry lives, in milliseconds.
    pub closed spec fn ttl(&self) -> u64 {
        self.ttl
    }

    /// The counters.
    pub closed spec fn counters(&self) -> CacheMetrics {
        self.metrics
    }

    /// No key twice, and no more entries than the capacity, which is not zero.
    pub open spec fn wf(&self) -> bool {
        &&& distinct_keys(self.entries())
        &&& self.entries().len() <= self.capacity()
        &&& self.capacity() > 0
    }

    /// An empty cache for `capacity` entries that live `ttl` milliseconds.
    pub fn new(capacity: usize, ttl: u64) -> (c: ResponseCache)
        requires
            0 < capacity <= MAX_CAPACITY,
        ensures
            c.wf(),
            c.entries() == Seq::<EntryModel>::empty(),
            c.capacity() == capacity,
            c.ttl() == ttl,
            c.counters() == (CacheMetrics { hits: 0, misses: 0, evictions: 0 }),
    {
        ResponseCache { cache: lru_new(capacity), ttl, metrics: CacheMetrics::new() }
    }

    /// Looks `key` up at time `now`. A live entry is returned and becomes the
    /// most recently used: a hit. An expired entry is removed: an eviction
    /// and a miss. An absent key is a miss.
    pub fn get(&mut self, key: &str, now: u64) -> (r: Option<serde_json::Value>)
        requires
            old(self).wf(),
        ensures
            final(self).wf(),
            final(self).capacity() == old(self).capacity(),
            final(self).ttl() == old(self).ttl(),
            option_model(r) == live_value(old(self).entries(), key@, now),
            final(self).entries() == after_lookup(old(self).entries(), key@, now),
            final(self).counters() == counted_lookup(old(self).counters(), old(self).entries(), key@, now),
    {
        let ghost before = self.entries();
        let found = lru_get(&mut self.cache, key);
        match found {
            Some(entry) => {
                if entry.1 > now {
                    proof {
                        touched_keeps_wf(before, key@);
                    }
                    self.metrics.record_hit();
                    Some(entry.0)
                } else {
                    proof {
                        touched_keeps_wf(before, key@);
                        without_after_touched(before, key@);
                        without_keeps_wf(before, key@);
                    }
                    let _ = lru_pop(&mut self.cache, key);
                    self.metrics.record_eviction();
                    self.metrics.record_miss();
                    None
                }
            },
            None => {
                self.metrics.record_miss();
                None
            },
        }
    }

    /// Writes a fresh entry for `key` that expires `ttl` after `now`. Where
    /// that takes an entry out, the one with this key or the least recently
    /// used one of a full cache, an eviction is counted.
    pub fn set(&mut self, key: String, value: serde_json::Value, now: u64)
        requires
            old(self).wf(),
        ensures
            final(self).wf(),
            final(self).capacity() == old(self).capacity(),
            final(self).ttl() == old(self).ttl(),
            final(self).entries() == stored(
                old(self).entries(),
                old(self).capacity(),
                EntryModel { key: key@, value: json_model(value), expires_at: expiry(now, old(self).ttl()) },
            ),
            final(self).counters() == counted_store(
                old(self).counters(),
                old(self).entries(),
                old(self).capacity(),
                key@,
            ),
    {
        let expires_at: u64 = if now > u64::MAX - self.ttl {
            u64::MAX
        } else {
            now + self.ttl
        };
        proof {
            stored_keeps_wf(
                self.entries(),
                self.capacity(),
                EntryModel { key: key@, value: json_model(value), expires_at },
            );
        }
        let displaced = lru_push(&mut self.cache, key, (value, expires_at));
        if displaced.is_some() {
            self.metrics.record_eviction();
        }
    }

    /// The counters.
    pub fn get_metrics(&self) -> (m: &CacheMetrics)
        ensures
            *m == self.counters(),
    {
        &self.metrics
    }
}

/// A use of a key keeps the keys distinct and the number of entries.
pub proof fn touched_keeps_wf(entries: Seq<EntryModel>, key: Seq<char>)
    requires
        distinct_keys(entries),
    ensures
        distinct_keys(touched(entries, key)),
        touched(entries, key).len() == entries.len(),
        has_key(entries, key) ==> touched(entries, key)[0] == entries[index_of(entries, key)],
{
    if has_key(entries, key) {
        let i = index_of(entries, key);
        let t = touched(entries, key);
        assert forall|a: int, b: int| 0 <= a < b < t.len() implies (#[trigger] t[a]).key != (#[trigger] t[b]).key by {
            let src_b = if b - 1 < i { b - 1 } else { b };
            assert(t[b] == entries[src_b]);
            if a == 0 {
                assert(t[a] == entries[i]);
            } else {
                let src_a = if a - 1 < i { a - 1 } else { a };
                assert(t[a] == entries[src_a]);
            }
        }
    }
}

/// Taking a key out keeps the keys distinct and leaves no entry under it.
pub proof fn without_keeps_wf(entries: Seq<EntryModel>, key: Seq<char>)
    requires
        distinct_keys(entries),
    ensures
        distinct_keys(without(entries, key)),
        without(entries, key).len() <= entries.len(),
        !has_key(without(entries, key), key),
{
    if has_key(entries, key) {
        let i = index_of(entries, key);
        let w = without(entries, key);
        assert forall|a: int| 0 <= a < w.len() implies (#[trigger] w[a]).key != key by {
            let src = if a < i { a } else { a + 1 };
            assert(w[a] == entries[src]);
        }
        assert forall|a: int, b: int| 0 <= a < b < w.len() implies (#[trigger] w[a]).key != (#[trigger] w[b]).key by {
            let src_a = if a < i { a } else { a + 1 };
            let src_b = if b < i { b } else { b + 1 };
            assert(w[a] == entries[src_a]);
            assert(w[b] == entries[src_b]);
        }
    }
}

/// Taking out a key that was just used leaves what taking it out at once
/// would have left.
pub proof fn without_after_touched(entries: Seq<EntryModel>, key: Seq<char>)
    requires
        distinct_keys(entries),
    ensures
        without(touched(entries, key), key) == without(entries, key),
{
    if has_key(entries, key) {
        touched_keeps_wf(entries, key);
        let i = index_of(entries, key);
        let t = touched(entries, key);
        assert(t[0].key == key);
        assert(has_key(t, key));
        let j = index_of(t, key);
        if j != 0 {
            assert(t[0].key != t[j].key);
        }
        assert(t.remove(0) =~= entries.remove(i));
    }
}

/// Storing an entry keeps the keys distinct and the capacity respected, and
/// puts the entry first.
pub proof fn stored_keeps_wf(entries: Seq<EntryModel>, capacity: nat, entry: EntryModel)
    requires
        distinct_keys(entries),
        entries.len() <= capacity,
        capacity > 0,
    ensures
        distinct_keys(stored(entries, capacity, entry)),
        stored(entries, capacity, entry).len() <= capacity,
        stored(entries, capacity, entry)[0] == entry,
        has_key(stored(entries, capacity, entry), entry.key),
        index_of(stored(entries, capacity, entry), entry.key) == 0,
{
    let s = stored(entries, capacity, entry);
    if has_key(entries, entry.key) {
        let i = index_of(entries, entry.key);
        assert forall|a: int, b: int| 0 <= a < b < s.len() implies (#[trigger] s[a]).key != (#[trigger] s[b]).key by {
            let src_b = if b - 1 < i { b - 1 } else { b };
            assert(s[b] == entries[src_b]);
            if a == 0 {
                assert(entries[i].key == entry.key);
            } else {
                let src_a = if a - 1 < i { a - 1 } else { a };
                assert(s[a] == entries[src_a]);
            }
        }
    } else {
        assert forall|a: int, b: int| 0 <= a < b < s.len() implies (#[trigger] s[a]).key != (#[trigger] s[b]).key by {
            assert(s[b] == entries[b - 1]);
            if a > 0 {
                assert(s[a] == entries[a - 1]);
            }
        }
    }
    assert(s[0].key == entry.key);
    assert(has_key(s, entry.key));
    let j = index_of(s, entry.key);
    if j != 0 {
        assert(s[0].key != s[j].key);
    }
}

/// A value that was stored is returned by every lookup of its key before
/// its expiry, whatever the cache held before; the lookup counts a hit.
pub proof fn stored_then_found(
    entries: Seq<EntryModel>,
    capacity: nat,
    entry: EntryModel,
    now: u64,
    counters: CacheMetrics,
)
    requires
        distinct_keys(entries),
        entries.len() <= capacity,
        capacity > 0,
        now < entry.expires_at,
    ensures
        live_value(stored(entries, capacity, entry), entry.key, now) == Some(entry.value),
        counted_lookup(counters, stored(entries, capacity, entry), entry.key, now).hits == bumped(counters.hits),
{
    stored_keeps_wf(entries, capacity, entry);
}

/// A lookup at or after the expiry of an entry returns nothing, removes the
/// entry and counts one eviction; a lookup after that finds the key absent
/// and counts no further eviction.
pub proof fn expired_entry_is_evicted_once(
    entries: Seq<EntryModel>,
    key: Seq<char>,
    now: u64,
    later: u64,
    counters: CacheMetrics,
)
    requires
        distinct_keys(entries),
        entry_of(entries, key) is Some,
        entry_of(entries, key).unwrap().expires_at <= now,
    ensures
        live_value(entries, key, now) is None,
        !has_key(after_lookup(entries, key, now), key),
        counted_lookup(counters, entries, key, now).evictions == bumped(counters.evictions),
        live_value(after_lookup(entries, key, now), key, later) is None,
        counted_lookup(
            counted_lookup(counters, entries, key, now),
            after_lookup(entries, key, now),
            key,
            later,
        ).evictions == bumped(counters.evictions),
{
    without_keeps_wf(entries, key);
}

/// Storing a new key in a full cache takes out the least recently used entry
/// and no other, and counts one eviction: the cache stays full, and every
/// other entry keeps its place behind the new one.
pub proof fn full_cache_evicts_least_recent(
    entries: Seq<EntryModel>,
    capacity: nat,
    entry: EntryModel,
    counters: CacheMetrics,
)
    requires
        distinct_keys(entries),
        entries.len() == capacity,
        capacity > 0,
        !has_key(entries, entry.key),
    ensures
        stored(entries, capacity, entry).len() == capacity,
        stored(entries, capacity, entry)[0] == entry,
        !has_key(stored(entries, capacity, entry), entries.last().key),
        forall|i: int| 0 <= i < entries.len() - 1 ==> stored(entries, capacity, entry)[i + 1] == #[trigger] entries[i],
        counted_store(counters, entries, capacity, entry.key).evictions == bumped(counters.evictions),
{
    let s = stored(entries, capacity, entry);
    assert(s =~= seq![entry] + entries.drop_last());
    assert forall|a: int| 0 <= a < s.len() implies (#[trigger] s[a]).key != entries.last().key by {
        if a == 0 {
            assert(entries[entries.len() - 1].key != entry.key);
        } else {
            assert(s[a] == entries[a - 1]);
        }
    }
}

/// Storing a new key in a cache that is not full takes no entry out and
/// counts no eviction.
pub proof fn spare_room_evicts_nothing(
    entries: Seq<EntryModel>,
    capacity: nat,
    entry: EntryModel,
    counters: CacheMetrics,
)
    requires
        entries.len() < capacity,
        !has_key(entries, entry.key),
    ensures
        stored(entries, capacity, entry) == seq![entry] + entries,
        counted_store(counters, entries, capacity, entry.key) == counters,
{
}

/// The number of bytes of a text in UTF-8.
pub open spec fn byte_len(s: Seq<char>) -> nat {
    vstd::utf8::encode_utf8(s).len()
}

/// The bytes of all the texts together.
pub open spec fn total_bytes(lines: Seq<String>) -> nat
    decreases lines.len(),
{
    if lines.len() == 0 {
        0
    } else {
        total_bytes(lines.drop_last()) + byte_len(lines.last()@)
    }
}

/// Serialized responses waiting to be written, bounded by their total size
/// in bytes.
pub struct ResponseBuffer {
    pub buffer: Vec<String>,
    pub max_size: usize,
    pub current_size: usize,
}

impl ResponseBuffer {
    /// The size recorded is that of the lines held, and within the bound.
    pub open spec fn wf(&self) -> bool {
        &&& self.current_size == total_bytes(self.buffer@)
        &&& self.current_size <= self.max_size
    }

    /// An empty buffer for at most `max_size` bytes.
    pub fn new(max_size: usize) -> (b: ResponseBuffer)
        ensures
            b.wf(),
            b.buffer@.len() == 0,
            b.max_size == max_size,
            b.current_size == 0,
    {
        ResponseBuffer { buffer: Vec::with_capacity(32), max_size, current_size: 0 }
    }

    /// Takes the response if it fits in what is left of the bound, and says
    /// whether it did; a response that does not fit changes nothing.
    pub fn add(&mut self, response: String) -> (accepted: bool)
        requires
            old(self).wf(),
        ensures
            final(self).wf(),
            final(self).max_size == old(self).max_size,
            accepted == (old(self).current_size + byte_len(response@) <= old(self).max_size),
            accepted ==> final(self).buffer@ == old(self).buffer@.push(response)
                && final(self).current_size == old(self).current_size + byte_len(response@),
            !accepted ==> final(self).buffer@ == old(self).buffer@
                && final(self).current_size == old(self).current_size,
    {
        let response_size: usize = response.as_str().as_bytes().len();
        if response_size > self.max_size - self.current_size {
            return false;
        }
        proof {
            assert(self.buffer@.push(response).drop_last() =~= self.buffer@);
        }
        self.current_size = self.current_size + response_size;
        self.buffer.push(response);
        true
    }

    /// Whether it is time to write: the buffer is at least half full, or
    /// holds fifty responses.
    pub fn should_flush(&self) -> (flush: bool)
        ensures
            flush == (self.current_size >= self.max_size / 2 || self.buffer@.len() >= 50),
    {
        self.current_size >= self.max_size / 2 || self.buffer.len() >= 50
    }

    /// Hands out the responses held, in the order in which they came, and
    /// leaves the buffer empty.
    pub fn take_buffer(&mut self) -> (lines: Vec<String>)
        ensures
            lines@ == old(self).buffer@,
            final(self).buffer@.len() == 0,
            final(self).current_size == 0,
            final(self).max_size == old(self).max_size,
            final(self).wf(),
    {
        let mut lines: Vec<String> = Vec::new();
        std::mem::swap(&mut self.buffer, &mut lines);
        self.current_size = 0;
        lines
    }
}

} // verus!
