//! A store from string keys to values in which every entry is visible only
//! until its expiry instant.
//!
//! Instants are nanoseconds on a clock of the caller's choice. `get` and `set`
//! read the time that has passed since the cache was made; `get_at` and
//! `set_at` take the instant as an argument.

use std::time::{Duration, Instant};
use vstd::hash_map::StringHashMap;
use vstd::prelude::*;

verus! {

/// `std::time::Instant`, a reading of the monotonic clock. Nothing is known
/// of its content.
#[verifier::external_type_specification]
#[verifier::external_body]
pub struct ExInstant(Instant);

/// The whole length of `d` in nanoseconds, as `Duration::as_nanos` gives it.
pub uninterp spec fn duration_nanos(d: Duration) -> nat;

/// `Duration::as_nanos` of std: the length of the duration in nanoseconds,
/// which `duration_nanos` names.
pub assume_specification[ Duration::as_nanos ](d: &Duration) -> (n: u128)
    ensures
        n == duration_nanos(*d),
;

/// `Instant::now` of std: the present reading of the monotonic clock.
/// Nothing is claimed of it.
pub assume_specification[ Instant::now ]() -> Instant;

/// `Instant::elapsed` of std: the time that has passed since `start`.
/// Nothing is claimed of it.
pub assume_specification[ Instant::elapsed ](start: &Instant) -> Duration;

/// A stored value and the instant at which it was stored.
pub struct CacheEntry<T> {
    value: T,
    stored_at: u128,
}

/// A cache of values under string keys. Every entry expires one
/// time-to-live after it was stored; the time-to-live is fixed when the cache
/// is made.
#[verifier::reject_recursive_types(T)]
pub struct Cache<T> {
    entries: StringHashMap<CacheEntry<T>>,
    default_ttl: u128,
    created: Instant,
}

/// What a reader sees under `key` at the instant `now`, in a store that maps
/// each key to its value and its expiry instant: the value while `now` is
/// before the expiry, and nothing from the expiry on.
pub open spec fn visible<T>(entries: Map<Seq<char>, (T, nat)>, key: Seq<char>, now: nat) -> Option<
    T,
> {
    if entries.contains_key(key) && now < entries[key].1 {
        Some(entries[key].0)
    } else {
        None
    }
}

/// The store after `value` is put under `key` at the instant `now`: the entry
/// expires one time-to-live later, and an earlier entry under `key` is gone.
pub open spec fn stored<T>(
    entries: Map<Seq<char>, (T, nat)>,
    ttl: nat,
    key: Seq<char>,
    value: T,
    now: nat,
) -> Map<Seq<char>, (T, nat)> {
    entries.insert(key, (value, now + ttl))
}

/// Whether `got` is what a reader may be handed where `stored` is visible:
/// nothing for nothing, and for a value a copy of it.
pub open spec fn copy_of<T: Clone>(stored: Option<T>, got: Option<T>) -> bool {
    match stored {
        Some(v) => got is Some && cloned(v, got->0),
        None => got is None,
    }
}

impl<T> View for Cache<T> {
    type V = Map<Seq<char>, (T, nat)>;

    /// Each stored key with its value and its expiry instant.
    closed spec fn view(&self) -> Map<Seq<char>, (T, nat)> {
        Map::new(
            |k: Seq<char>| self.entries@.contains_key(k),
            |k: Seq<char>| (self.entries@[k].value, (self.entries@[k].stored_at + self.default_ttl) as nat),
        )
    }
}

impl<T> Cache<T> {
    /// The time-to-live of every entry, in nanoseconds.
    pub closed spec fn ttl(&self) -> nat {
        self.default_ttl as nat
    }

    /// What `get_at` finds under `key` at the instant `now`.
    pub open spec fn lookup(&self, key: Seq<char>, now: nat) -> Option<T> {
        visible(self@, key, now)
    }

    /// An empty cache whose entries live for `default_ttl`.
    pub fn new(default_ttl: Duration) -> (cache: Self)
        ensures
            cache@ == Map::<Seq<char>, (T, nat)>::empty(),
            cache.ttl() == duration_nanos(default_ttl),
    {
        Cache {
            entries: StringHashMap::new(),
            default_ttl: default_ttl.as_nanos(),
            created: Instant::now(),
        }
    }

    /// The nanoseconds that have passed since the cache was made: the clock
    /// that `get` and `set` go by.
    pub fn elapsed(&self) -> u128 {
        self.created.elapsed().as_nanos()
    }

    /// A copy of the value under `key` if there is one and `now` is before its
    /// expiry; otherwise nothing. An expired entry stays in storage and is
    /// never returned.
    pub fn get_at(&self, key: &str, now: u128) -> (found: Option<T>) where T: Clone
        ensures
            copy_of(self.lookup(key@, now as nat), found),
    {
        match self.entries.get(key) {
            Some(entry) => {
                if now < entry.stored_at || now - entry.stored_at < self.default_ttl {
                    Some(entry.value.clone())
                } else {
                    None
                }
            },
            None => None,
        }
    }

    /// Stores `value` under `key`, to expire one time-to-live after `now`.
    /// An entry that was under `key` before is discarded.
    pub fn set_at(&mut self, key: String, value: T, now: u128)
        ensures
            final(self)@ == stored(old(self)@, old(self).ttl(), key@, value, now as nat),
            final(self).ttl() == old(self).ttl(),
    {
        self.entries.insert(key, CacheEntry { value, stored_at: now });
    }

    /// `get_at` at the present instant of the cache's own clock.
    pub fn get(&self, key: &str) -> (found: Option<T>) where T: Clone
        ensures
            exists|now: nat| copy_of(#[trigger] self.lookup(key@, now), found),
    {
        let now = self.elapsed();
        self.get_at(key, now)
    }

    /// `set_at` at the present instant of the cache's own clock.
    pub fn set(&mut self, key: String, value: T)
        ensures
            exists|now: nat|
                final(self)@ == #[trigger] stored(old(self)@, old(self).ttl(), key@, value, now),
            final(self).ttl() == old(self).ttl(),
    {
        let now = self.elapsed();
        self.set_at(key, value, now);
    }
}

/// Right after a value is stored it is what a reader sees under its key, and
/// so it stays for every instant before one time-to-live has passed.
pub proof fn lemma_stored_value_is_visible<T>(
    entries: Map<Seq<char>, (T, nat)>,
    ttl: nat,
    key: Seq<char>,
    value: T,
    at: nat,
    now: nat,
)
    requires
        now < at + ttl,
    ensures
        visible(stored(entries, ttl, key, value, at), key, now) == Some(value),
{
}

/// Once a time-to-live has passed since the last store under a key, a reader
/// sees nothing under it, whatever was stored.
pub proof fn lemma_expired_value_is_hidden<T>(
    entries: Map<Seq<char>, (T, nat)>,
    ttl: nat,
    key: Seq<char>,
    value: T,
    at: nat,
    now: nat,
)
    requires
        now >= at + ttl,
    ensures
        visible(stored(entries, ttl, key, value, at), key, now) == None::<T>,
{
}

/// Storing under one key changes nothing that a reader sees under another.
pub proof fn lemma_store_leaves_other_keys<T>(
    entries: Map<Seq<char>, (T, nat)>,
    ttl: nat,
    key: Seq<char>,
    value: T,
    at: nat,
    other: Seq<char>,
    now: nat,
)
    requires
        other != key,
    ensures
        visible(stored(entries, ttl, key, value, at), other, now) == visible(entries, other, now),
{
}

} // verus!
