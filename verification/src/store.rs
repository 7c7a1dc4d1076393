//! The entry store: keys mapped to values with an optional absolute expiry.
//!
//! Expiry is lazy. An entry whose time has passed is never removed; a read
//! merely treats it as absent. An expired entry therefore occupies memory
//! until its key is written again.

use crate::clock::current_timestamp;
use vstd::hash_map::StringHashMap;
use vstd::prelude::*;

verus! {

/// A stored value with the instant at which it stops being readable.
///
/// The expiry is held in 128 bits, so that the sum of a 64-bit timestamp and
/// a 64-bit time-to-live is always exact.
pub struct Entry {
    pub value: String,
    pub expires_at: Option<i128>,
}

/// The mathematical content of an [`Entry`].
pub struct EntryView {
    pub value: Seq<char>,
    pub expires_at: Option<int>,
}

impl View for Entry {
    type V = EntryView;

    open spec fn view(&self) -> EntryView {
        EntryView {
            value: self.value@,
            expires_at: match self.expires_at {
                Some(at) => Some(at as int),
                None => None,
            },
        }
    }
}

/// The store as a mathematical map from keys to entries.
pub type StoreView = Map<Seq<char>, EntryView>;

/// The instant at which an entry written at `now` with the given
/// time-to-live expires: `now + ttl` seconds, or never without one.
pub open spec fn expiry_of(ttl: Option<i64>, now: i64) -> Option<int> {
    match ttl {
        Some(seconds) => Some(now + seconds),
        None => None,
    }
}

/// The entry that a write of `value` at `now` leaves in the store.
pub open spec fn written_entry(value: Seq<char>, ttl: Option<i64>, now: i64) -> EntryView {
    EntryView { value, expires_at: expiry_of(ttl, now) }
}

/// Whether a read at `now` sees the entry as expired: it has an expiry, and
/// that expiry lies strictly before `now`.
pub open spec fn is_expired(entry: EntryView, now: i64) -> bool {
    match entry.expires_at {
        Some(at) => at < now,
        None => false,
    }
}

/// The store after a write of `value` under `key` at `now`.
pub open spec fn store_after_set(
    store: StoreView,
    key: Seq<char>,
    value: Seq<char>,
    ttl: Option<i64>,
    now: i64,
) -> StoreView {
    store.insert(key, written_entry(value, ttl, now))
}

/// What a read of `key` at `now` returns: the value of its entry, unless the
/// key has none or the entry is expired.
pub open spec fn lookup(store: StoreView, key: Seq<char>, now: i64) -> Option<Seq<char>> {
    if store.contains_key(key) && !is_expired(store[key], now) {
        Some(store[key].value)
    } else {
        None
    }
}

/// Computes the absolute expiry of an entry written at `now`.
pub fn expiry(ttl: Option<i64>, now: i64) -> (expires_at: Option<i128>)
    ensures
        match expires_at {
            Some(at) => expiry_of(ttl, now) == Some(at as int),
            None => expiry_of(ttl, now).is_none(),
        },
{
    match ttl {
        Some(seconds) => {
            let now_wide: i128 = now as i128;
            let seconds_wide: i128 = seconds as i128;
            Some(now_wide + seconds_wide)
        },
        None => None,
    }
}

impl Entry {
    /// Whether a read at `now` treats this entry as absent.
    pub fn expired_at(&self, now: i64) -> (expired: bool)
        ensures
            expired == is_expired(self@, now),
    {
        match self.expires_at {
            Some(at) => {
                let now_wide: i128 = now as i128;
                at < now_wide
            },
            None => false,
        }
    }
}

/// The map of all entries. One store serves every session.
pub struct Store {
    entries: StringHashMap<Entry>,
}

impl View for Store {
    type V = StoreView;

    closed spec fn view(&self) -> StoreView {
        self.entries@.map_values(|entry: Entry| entry@)
    }
}

impl Store {
    /// Creates a store without entries.
    pub fn new() -> (store: Store)
        ensures
            store@ == StoreView::empty(),
    {
        let store = Store { entries: StringHashMap::new() };
        assert(store@ =~= StoreView::empty());
        store
    }

    /// Writes `value` under `key` as of the instant `now`, replacing any
    /// entry that the key had. With a time-to-live the entry expires at
    /// `now + ttl`; without one it never does.
    pub fn set_at(&mut self, key: String, value: String, ttl: Option<i64>, now: i64)
        ensures
            final(self)@ == store_after_set(old(self)@, key@, value@, ttl, now),
    {
        let ghost before = self.entries@;
        let entry = Entry { value, expires_at: expiry(ttl, now) };
        assert(entry@ == written_entry(value@, ttl, now));
        self.entries.insert(key, entry);
        assert(self.entries@.map_values(|entry: Entry| entry@) =~= before.map_values(
            |entry: Entry| entry@,
        ).insert(key@, entry@));
    }

    /// Reads `key` as of the instant `now`. Returns the stored value, or
    /// `None` when the key has no entry or its entry is expired. The store
    /// is left as it is: an expired entry stays.
    pub fn get_at(&self, key: &str, now: i64) -> (found: Option<String>)
        ensures
            found.deep_view() == lookup(self@, key@, now),
    {
        match self.entries.get(key) {
            Some(entry) => {
                if entry.expired_at(now) {
                    None
                } else {
                    Some(entry.value.clone())
                }
            },
            None => None,
        }
    }

    /// Writes `value` under `key` as of the current time.
    ///
    /// The clock decides the instant, so the contract holds for whichever
    /// instant it gave.
    pub fn set(&mut self, key: String, value: String, ttl: Option<i64>)
        ensures
            exists|now: i64|
                final(self)@ == #[trigger] store_after_set(old(self)@, key@, value@, ttl, now),
    {
        let now = current_timestamp();
        self.set_at(key, value, ttl, now);
    }

    /// Reads `key` as of the current time.
    ///
    /// The clock decides the instant, so the contract holds for whichever
    /// instant it gave.
    pub fn get(&self, key: &str) -> (found: Option<String>)
        ensures
            exists|now: i64| found.deep_view() == #[trigger] lookup(self@, key@, now),
    {
        let now = current_timestamp();
        self.get_at(key, now)
    }

    /// Whether `key` has an entry, expired or not.
    pub fn contains_key(&self, key: &str) -> (present: bool)
        ensures
            present == self@.contains_key(key@),
    {
        self.entries.contains_key(key)
    }

    /// The number of entries, expired ones included.
    pub fn len(&self) -> (count: usize)
        ensures
            count == self@.len(),
    {
        broadcast use vstd::hash_map::group_hash_map_axioms;

        proof {
            assert(self.entries@.map_values(|entry: Entry| entry@).dom() =~= self.entries@.dom());
        }
        self.entries.len()
    }
}

/// A value that was written is the value that is read back, at whatever
/// instant the read happens, unless the entry has expired by then: with a
/// time-to-live, a read later than `written_at + ttl` finds nothing.
pub proof fn lemma_set_then_get(
    store: StoreView,
    key: Seq<char>,
    value: Seq<char>,
    ttl: Option<i64>,
    written_at: i64,
    read_at: i64,
)
    ensures
        lookup(store_after_set(store, key, value, ttl, written_at), key, read_at) == if ttl.is_some(
        ) && written_at + ttl.unwrap() < read_at {
            None
        } else {
            Some(value)
        },
{
}

/// An entry with a time-to-live is read back up to and including the
/// instant `written_at + ttl`, and is found no more after it.
pub proof fn lemma_ttl_expiry(
    store: StoreView,
    key: Seq<char>,
    value: Seq<char>,
    ttl: i64,
    written_at: i64,
    read_at: i64,
)
    ensures
        read_at <= written_at + ttl ==> lookup(
            store_after_set(store, key, value, Some(ttl), written_at),
            key,
            read_at,
        ) == Some(value),
        read_at > written_at + ttl ==> lookup(
            store_after_set(store, key, value, Some(ttl), written_at),
            key,
            read_at,
        ).is_none(),
{
}

/// An entry without a time-to-live is read back at every instant.
pub proof fn lemma_without_ttl_never_expires(
    store: StoreView,
    key: Seq<char>,
    value: Seq<char>,
    written_at: i64,
)
    ensures
        forall|read_at: i64|
            #[trigger] lookup(store_after_set(store, key, value, None, written_at), key, read_at)
                == Some(value),
{
}

/// A write changes what is read under its own key only.
pub proof fn lemma_set_leaves_other_keys(
    store: StoreView,
    key: Seq<char>,
    value: Seq<char>,
    ttl: Option<i64>,
    written_at: i64,
    other: Seq<char>,
    read_at: i64,
)
    requires
        other != key,
    ensures
        lookup(store_after_set(store, key, value, ttl, written_at), other, read_at) == lookup(
            store,
            other,
            read_at,
        ),
{
}

/// Expiry removes nothing: a key that has an entry keeps it at every
/// instant, readable or not, until the key is written again.
pub proof fn lemma_expired_entry_stays(
    store: StoreView,
    key: Seq<char>,
    value: Seq<char>,
    ttl: Option<i64>,
    written_at: i64,
)
    ensures
        store_after_set(store, key, value, ttl, written_at).contains_key(key),
        store_after_set(store, key, value, ttl, written_at)[key] == written_entry(
            value,
            ttl,
            written_at,
        ),
{
}

/// One write, with the instant at which it took effect.
pub struct SetOperation {
    pub key: Seq<char>,
    pub value: Seq<char>,
    pub ttl: Option<i64>,
    pub at: i64,
}

/// The store after a run of writes, applied one after the other. The store
/// admits one operation at a time, so whatever many sessions ask for at once
/// takes effect as some such run.
pub open spec fn store_after_writes(store: StoreView, writes: Seq<SetOperation>) -> StoreView
    decreases writes.len(),
{
    if writes.len() == 0 {
        store
    } else {
        let last = writes.last();
        store_after_set(
            store_after_writes(store, writes.drop_last()),
            last.key,
            last.value,
            last.ttl,
            last.at,
        )
    }
}

/// Whether no two writes of a run are to the same key.
pub open spec fn keys_are_distinct(writes: Seq<SetOperation>) -> bool {
    forall|a: int, b: int| 0 <= a < b < writes.len() ==> writes[a].key != writes[b].key
}

/// After writes to distinct keys, in whatever order they took effect, every
/// key holds the entry of its own write: none is lost and none is mixed up
/// with another.
pub proof fn lemma_writes_to_distinct_keys_all_land(
    store: StoreView,
    writes: Seq<SetOperation>,
    i: int,
)
    requires
        keys_are_distinct(writes),
        0 <= i < writes.len(),
    ensures
        store_after_writes(store, writes).contains_key(writes[i].key),
        store_after_writes(store, writes)[writes[i].key] == written_entry(
            writes[i].value,
            writes[i].ttl,
            writes[i].at,
        ),
    decreases writes.len(),
{
    if i < writes.len() - 1 {
        let earlier = writes.drop_last();
        assert(keys_are_distinct(earlier)) by {
            assert forall|a: int, b: int| 0 <= a < b < earlier.len() implies earlier[a].key
                != earlier[b].key by {
                assert(earlier[a] == writes[a]);
                assert(earlier[b] == writes[b]);
            }
        }
        assert(earlier[i] == writes[i]);
        lemma_writes_to_distinct_keys_all_land(store, earlier, i);
        assert(writes[i].key != writes.last().key);
    }
}

/// After writes to distinct keys, in whatever order they took effect, a
/// read of each key returns the value of its own write, provided that the
/// write has not expired by the time of the read.
pub proof fn lemma_writes_to_distinct_keys_all_read_back(
    store: StoreView,
    writes: Seq<SetOperation>,
    i: int,
    read_at: i64,
)
    requires
        keys_are_distinct(writes),
        0 <= i < writes.len(),
        !is_expired(written_entry(writes[i].value, writes[i].ttl, writes[i].at), read_at),
    ensures
        lookup(store_after_writes(store, writes), writes[i].key, read_at) == Some(writes[i].value),
{
    lemma_writes_to_distinct_keys_all_land(store, writes, i);
}

} // verus!
