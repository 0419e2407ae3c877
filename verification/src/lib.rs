//! A cache that keeps each value for a set amount of time.
//!
//! A [`TimedCache`] hands out the value stored under a key for as long as the
//! value is younger than the cache's time to keep. After that, or when the key
//! has no value yet, the next [`TimedCache::get`] has the caller's generator
//! make a new value, stores it in place of the old one and hands it out.
//! Nothing sweeps the cache in the background: an expired value stays until
//! its key is asked for again.
//!
//! ```
//! use std::cell::Cell;
//! use timed_cache::TimeSpan;
//! use timed_cache::TimedCache;
//!
//! let served = Cell::new(0usize);
//! let next = || {
//!     served.set(served.get() + 1);
//!     served.get()
//! };
//!
//! let mut cache = TimedCache::<String, usize>::with_time_to_keep(TimeSpan::from_secs(10));
//! assert_eq!(*cache.get(&"session".to_owned(), next), 1);
//! assert_eq!(*cache.get(&"session".to_owned(), next), 1);
//! ```
//!
//! What the clock will read is the one thing here that cannot be reasoned
//! about, so every function that reads it comes with one that is told what
//! the clock shows: [`TimedData::still_valid_at`] beside
//! [`TimedData::still_valid`], [`TimedCache::present_and_valid_at_age`] beside
//! [`TimedCache::present_and_valid`], and [`TimedCache::get_at_age`] beside
//! [`TimedCache::get`]. The module [`guarantees`] states what holds of lookups
//! one after another.

pub mod clock;
pub mod guarantees;
pub mod time_span;
pub mod timed_data;

pub use crate::time_span::TimeSpan;
pub use crate::timed_data::TimedData;

use crate::clock::now;
use crate::timed_data::valid_at_age;
use std::collections::HashMap;
use std::hash::Hash;
use std::time::Instant;
use vstd::prelude::*;
use vstd::std_specs::hash::obeys_key_model;

verus! {

/// A collection which stores a value for a set amount of time.
///
/// Each stored value keeps track of when it was stored. Once it has been
/// stored for the time to keep or longer, the next [`TimedCache::get`] for its
/// key replaces it with a value from the generator handed to that call.
pub struct TimedCache<Key: Hash + Eq + Clone, Value> {
    /// The amount of time a value will be considered valid.
    time_to_keep: TimeSpan,
    /// The stored values, each with the instant at which it was stored.
    store: HashMap<Key, TimedData<Value>>,
    /// How many values the cache has had generated since it was created.
    generated: Ghost<nat>,
}

/// Copies a key with `Clone::clone`. For a key type that obeys the model of
/// hash table keys the copy is identical to the key it was made from: that a
/// clone equals its input is one of the three conditions of that model.
#[verifier::external_body]
fn clone_key<Key: Clone>(key: &Key) -> (copy: Key)
    ensures
        obeys_key_model::<Key>() ==> copy == *key,
{
    key.clone()
}

impl<Key: Hash + Eq + Clone, Value> TimedCache<Key, Value> {
    /// The time to keep, in nanoseconds.
    pub closed spec fn time_to_keep(&self) -> nat {
        self.time_to_keep@
    }

    /// What is stored under each key.
    pub closed spec fn entries(&self) -> Map<Key, TimedData<Value>> {
        self.store@
    }

    /// How many times the cache has called a generator since it was created.
    pub closed spec fn generated(&self) -> nat {
        self.generated@
    }

    /// How long the value under `key` has been stored when the clock reads
    /// `current`, in nanoseconds; zero where nothing is stored under `key`.
    pub open spec fn age_at(&self, key: Key, current: Instant) -> nat {
        if self.entries().contains_key(key) {
            self.entries()[key].age_at(current)
        } else {
            0
        }
    }

    /// Whether `key` has a value that is still valid when it has been stored
    /// for `time_lived` nanoseconds.
    pub open spec fn present_and_valid_at(&self, key: Key, time_lived: nat) -> bool {
        self.entries().contains_key(key) && valid_at_age(self.time_to_keep(), time_lived)
    }

    /// What one [`TimedCache::get`] for `key` does to the cache `self`, when
    /// the clock shows that the value under `key`, if there is one, has been
    /// stored for `time_lived` nanoseconds: it hands out `value` and leaves
    /// the cache as `after`.
    ///
    /// A value that is present and valid is handed out and nothing changes.
    /// Otherwise one value is generated, stored under `key` in place of what
    /// was there, and handed out; the other keys keep what they had.
    pub open spec fn serves(&self, key: Key, time_lived: nat, value: Value, after: Self) -> bool {
        if self.present_and_valid_at(key, time_lived) {
            &&& value == self.entries()[key]@
            &&& after == *self
        } else {
            &&& after.entries() == self.entries().insert(key, after.entries()[key])
            &&& after.entries()[key]@ == value
            &&& after.generated() == self.generated() + 1
            &&& after.time_to_keep() == self.time_to_keep()
        }
    }

    /// Creates a `TimedCache` with the specified time span as the length of
    /// time the values will be considered valid after initial storage.
    pub fn with_time_to_keep(time_to_keep: TimeSpan) -> (cache: TimedCache<Key, Value>)
        ensures
            cache.time_to_keep() == time_to_keep@,
            cache.entries() == Map::<Key, TimedData<Value>>::empty(),
            cache.generated() == 0,
    {
        TimedCache { time_to_keep, store: HashMap::new(), generated: Ghost(0) }
    }

    /// Retrieves a reference to the value stored in the cache for the `key` if
    /// it exists and is still considered valid, otherwise calls
    /// `generate_value` to generate the value to store in the cache and returns
    /// a reference to that value.
    ///
    /// The call reads the clock to learn how long the value under `key` has
    /// been stored, and then does what [`TimedCache::get_at_age`] does for
    /// that age: it is one of the lookups that [`TimedCache::serves`]
    /// describes, for the age of the stored value at some reading of the
    /// clock. Which reading that is cannot be said. It makes no difference
    /// where nothing is stored under `key` or where the time to keep is zero:
    /// then a value is generated.
    ///
    /// Hashing and comparing keys is left to the key type, which has to obey
    /// the model of hash table keys: equal keys hash equally, and a copy of a
    /// key is equal to it.
    pub fn get(&mut self, key: &Key, generate_value: impl Fn() -> Value) -> (value: &Value)
        requires
            obeys_key_model::<Key>(),
            generate_value.requires(()),
        ensures
            exists|current: Instant|
                {
                    let time_lived = #[trigger] old(self).age_at(*key, current);
                    &&& old(self).serves(*key, time_lived, *value, *final(self))
                    &&& !old(self).present_and_valid_at(*key, time_lived)
                        ==> generate_value.ensures((), *value)
                },
            final(self).entries().contains_key(*key),
            final(self).entries()[*key]@ == *value,
            final(self).time_to_keep() == old(self).time_to_keep(),
            !old(self).entries().contains_key(*key) || old(self).time_to_keep() == 0 ==> {
                &&& generate_value.ensures((), *value)
                &&& final(self).generated() == old(self).generated() + 1
            },
    {
        let time_lived = self.time_lived(key);
        self.get_at_age(key, time_lived, generate_value)
    }

    /// What [`TimedCache::get`] does when the clock shows that the value
    /// stored under `key`, if there is one, has been stored for `time_lived`.
    ///
    /// The stored value is handed out while `time_lived` is strictly shorter
    /// than the time to keep. From the moment the two are equal, or when
    /// nothing is stored under `key`, `generate_value` is called once and its
    /// value is stored and handed out.
    pub fn get_at_age(
        &mut self,
        key: &Key,
        time_lived: TimeSpan,
        generate_value: impl Fn() -> Value,
    ) -> (value: &Value)
        requires
            obeys_key_model::<Key>(),
            generate_value.requires(()),
        ensures
            old(self).serves(*key, time_lived@, *value, *final(self)),
            !old(self).present_and_valid_at(*key, time_lived@) ==> generate_value.ensures(
                (),
                *value,
            ),
    {
        if self.present_and_valid_at_age(key, &time_lived) {
            self.retrieve(key)
        } else {
            self.insert_and_retrieve(key, generate_value)
        }
    }

    /// Whether `key` has a value that is still valid, as the clock shows it
    /// now: what [`TimedCache::present_and_valid_at_age`] says for the age of
    /// the stored value at the reading that the call takes of the clock.
    pub fn present_and_valid(&self, key: &Key) -> (valid: bool)
        requires
            obeys_key_model::<Key>(),
        ensures
            exists|current: Instant|
                valid == self.present_and_valid_at(*key, #[trigger] self.age_at(*key, current)),
            valid ==> self.entries().contains_key(*key) && self.time_to_keep() > 0,
    {
        let time_lived = self.time_lived(key);
        self.present_and_valid_at_age(key, &time_lived)
    }

    /// Whether `key` has a value that is still valid when it has been stored
    /// for `time_lived`.
    pub fn present_and_valid_at_age(&self, key: &Key, time_lived: &TimeSpan) -> (valid: bool)
        requires
            obeys_key_model::<Key>(),
        ensures
            valid == self.present_and_valid_at(*key, time_lived@),
    {
        self.store.contains_key(key) && self.time_to_keep.outlasts(time_lived)
    }

    /// How long the value under `key` has been stored, as the clock shows it
    /// now; zero where nothing is stored under `key`.
    fn time_lived(&self, key: &Key) -> (lived: TimeSpan)
        requires
            obeys_key_model::<Key>(),
        ensures
            exists|current: Instant| lived@ == #[trigger] self.age_at(*key, current),
    {
        match self.store.get(key) {
            Some(timed_data) => {
                let lived = timed_data.time_lived();
                let ghost current = choose|current: Instant| lived@ == timed_data.age_at(current);
                assert(lived@ == self.age_at(*key, current));
                lived
            },
            None => {
                assert(self.age_at(*key, arbitrary()) == 0);
                TimeSpan::from_nanos(0)
            },
        }
    }

    /// The value stored under `key`.
    fn retrieve(&self, key: &Key) -> (value: &Value)
        requires
            obeys_key_model::<Key>(),
            self.entries().contains_key(*key),
        ensures
            *value == self.entries()[*key]@,
    {
        self.store.get(key).unwrap().item()
    }

    /// Calls `generate_value` once and stores its value under `key`, stamped
    /// with the reading that the clock gives once the value is there, in
    /// place of what was stored before.
    fn insert_and_retrieve(&mut self, key: &Key, generate_value: impl Fn() -> Value) -> (value:
        &Value)
        requires
            obeys_key_model::<Key>(),
            generate_value.requires(()),
        ensures
            generate_value.ensures((), *value),
            final(self).entries() == old(self).entries().insert(*key, final(self).entries()[*key]),
            final(self).entries()[*key]@ == *value,
            final(self).generated() == old(self).generated() + 1,
            final(self).time_to_keep() == old(self).time_to_keep(),
    {
        let value = generate_value();
        proof {
            self.generated@ = self.generated@ + 1;
        }
        self.store_at(key, value, now())
    }

    /// Stores `value` under `key`, stamped with the reading `at`. What was
    /// stored under `key` before, value and stamp, is thrown away: it's not
    /// important for this use case. The other keys keep what they had.
    fn store_at(&mut self, key: &Key, value: Value, at: Instant) -> (stored: &Value)
        requires
            obeys_key_model::<Key>(),
        ensures
            final(self).entries() == old(self).entries().insert(*key, final(self).entries()[*key]),
            final(self).entries()[*key]@ == value,
            final(self).entries()[*key].stored_at() == at,
            *stored == value,
            final(self).time_to_keep() == old(self).time_to_keep(),
            final(self).generated() == old(self).generated(),
    {
        let _ = self.store.insert(clone_key(key), TimedData::stamped(value, at));
        self.retrieve(key)
    }
}

} // verus!
