//! What follows from [`TimedCache::serves`], the description that every
//! lookup meets, about lookups one after another.
//!
//! The statements here are over `time_lived`, the age that a lookup finds for
//! the value under its key. [`TimedCache::get_at_age`] is told that age. For
//! [`TimedCache::get`] it is [`TimedCache::age_at`]: the time from the instant
//! with which the stored value is stamped to the reading that the lookup takes
//! of the clock. A lookup that hands out a stored value leaves the stamp as it
//! is, and one that generates a value stamps it with a reading of its own.
//!
//! What the clock reads is not within reach of these statements. That a
//! reading taken later is later, so that the age found for a value is the time
//! since the lookup that generated it, is the clock's part.

use crate::timed_data::valid_at_age;
use crate::TimedCache;
use std::hash::Hash;
use vstd::prelude::*;

verus! {

/// A value is valid only while it is strictly younger than the time to live:
/// at the moment its age equals the time to live it has expired, and it stays
/// expired from then on.
pub proof fn expires_at_time_to_live(time_to_live: nat, time_lived: nat)
    ensures
        !valid_at_age(time_to_live, time_to_live),
        valid_at_age(time_to_live, time_lived) <==> time_lived < time_to_live,
        time_lived >= time_to_live ==> !valid_at_age(time_to_live, time_lived),
{
}

/// Of two lookups of one key in a row, the second hands out what the first
/// handed out, calls no generator and changes nothing, provided that it finds
/// the value younger than the time to keep. If the first found nothing valid,
/// the generator ran once for the two of them.
pub proof fn fresh_value_is_served_again<Key: Hash + Eq + Clone, Value>(
    cache: TimedCache<Key, Value>,
    key: Key,
    first_age: nat,
    first: Value,
    between: TimedCache<Key, Value>,
    second_age: nat,
    second: Value,
    after: TimedCache<Key, Value>,
)
    requires
        cache.serves(key, first_age, first, between),
        between.serves(key, second_age, second, after),
        second_age < cache.time_to_keep(),
    ensures
        second == first,
        after == between,
        after.generated() == between.generated(),
        !cache.present_and_valid_at(key, first_age) ==> after.generated() == cache.generated() + 1,
{
}

/// Of two lookups of one key in a row, the second calls the generator again
/// when it finds the value at least as old as the time to keep. What it hands
/// out is that new value, which takes the place of the first under the key.
pub proof fn expired_value_is_generated_again<Key: Hash + Eq + Clone, Value>(
    cache: TimedCache<Key, Value>,
    key: Key,
    first_age: nat,
    first: Value,
    between: TimedCache<Key, Value>,
    second_age: nat,
    second: Value,
    after: TimedCache<Key, Value>,
)
    requires
        cache.serves(key, first_age, first, between),
        between.serves(key, second_age, second, after),
        second_age >= cache.time_to_keep(),
    ensures
        between.entries()[key]@ == first,
        after.generated() == between.generated() + 1,
        after.entries()[key]@ == second,
        after.entries() == between.entries().insert(key, after.entries()[key]),
{
}

/// A lookup that finds the value exactly as old as the time to keep treats it
/// as expired: it calls the generator.
pub proof fn age_equal_to_time_to_keep_is_expired<Key: Hash + Eq + Clone, Value>(
    cache: TimedCache<Key, Value>,
    key: Key,
    value: Value,
    after: TimedCache<Key, Value>,
)
    requires
        cache.serves(key, cache.time_to_keep(), value, after),
    ensures
        !cache.present_and_valid_at(key, cache.time_to_keep()),
        after.generated() == cache.generated() + 1,
{
}

/// With a time to keep of zero every lookup calls the generator, whatever the
/// clock shows and whatever is stored.
pub proof fn zero_time_to_keep_always_generates<Key: Hash + Eq + Clone, Value>(
    cache: TimedCache<Key, Value>,
    key: Key,
    time_lived: nat,
    value: Value,
    after: TimedCache<Key, Value>,
)
    requires
        cache.time_to_keep() == 0,
        cache.serves(key, time_lived, value, after),
    ensures
        after.generated() == cache.generated() + 1,
        after.time_to_keep() == 0,
{
}

/// A lookup of one key leaves every other key as it was: present or absent,
/// with the same value, stored at the same instant, and so valid at the same
/// ages as before.
pub proof fn other_keys_are_untouched<Key: Hash + Eq + Clone, Value>(
    cache: TimedCache<Key, Value>,
    key: Key,
    time_lived: nat,
    value: Value,
    after: TimedCache<Key, Value>,
    other: Key,
)
    requires
        cache.serves(key, time_lived, value, after),
        other != key,
    ensures
        after.entries().contains_key(other) == cache.entries().contains_key(other),
        cache.entries().contains_key(other) ==> after.entries()[other] == cache.entries()[other],
        forall|age: nat|
            after.present_and_valid_at(other, age) == cache.present_and_valid_at(other, age),
{
}

/// A run of lookups, one after another: lookup `i` asks for `keys[i]`, finds
/// the cache as `caches[i]` and the value under that key `ages[i]` old, hands
/// out `values[i]` and leaves the cache as `caches[i + 1]`.
pub open spec fn serves_in_turn<Key: Hash + Eq + Clone, Value>(
    caches: Seq<TimedCache<Key, Value>>,
    keys: Seq<Key>,
    ages: Seq<nat>,
    values: Seq<Value>,
) -> bool {
    &&& caches.len() == ages.len() + 1
    &&& keys.len() == ages.len()
    &&& values.len() == ages.len()
    &&& forall|i: int|
        0 <= i < ages.len() ==> caches[i].serves(
            keys[i],
            #[trigger] ages[i],
            values[i],
            caches[i + 1],
        )
}

/// A run of lookups, however long, that all find a stored value younger than
/// the time to keep calls no generator: every lookup hands out the value that
/// was stored under its key at the start, and the cache never changes, so
/// that every value keeps the instant at which it was stored.
pub proof fn hits_generate_nothing<Key: Hash + Eq + Clone, Value>(
    caches: Seq<TimedCache<Key, Value>>,
    keys: Seq<Key>,
    ages: Seq<nat>,
    values: Seq<Value>,
)
    requires
        serves_in_turn(caches, keys, ages, values),
        forall|i: int|
            0 <= i < ages.len() ==> caches[0].present_and_valid_at(keys[i], #[trigger] ages[i]),
    ensures
        caches.last().generated() == caches[0].generated(),
        forall|i: int| 0 <= i < caches.len() ==> #[trigger] caches[i] == caches[0],
        forall|i: int|
            0 <= i < values.len() ==> #[trigger] values[i] == caches[0].entries()[keys[i]]@,
    decreases ages.len(),
{
    if ages.len() > 0 {
        let n = ages.len() - 1;
        hits_generate_nothing(
            caches.drop_last(),
            keys.drop_last(),
            ages.drop_last(),
            values.drop_last(),
        );
        assert(caches[n].serves(keys[n], ages[n], values[n], caches[n + 1]));
        assert forall|i: int| 0 <= i < caches.len() implies #[trigger] caches[i] == caches[0] by {
            if i < caches.len() - 1 {
                assert(caches.drop_last()[i] == caches[0]);
            }
        }
        assert forall|i: int| 0 <= i < values.len() implies #[trigger] values[i]
            == caches[0].entries()[keys[i]]@ by {
            if i < n {
                assert(values.drop_last()[i] == caches[0].entries()[keys.drop_last()[i]]@);
            }
        }
    }
}

/// A run of `n` lookups that all find nothing valid under their key, because
/// nothing is stored there or because what is stored is as old as the time to
/// keep or older, calls the generator exactly `n` times, once in each lookup.
/// Each lookup hands out the value that it has just stored under its key.
pub proof fn misses_generate_each_time<Key: Hash + Eq + Clone, Value>(
    caches: Seq<TimedCache<Key, Value>>,
    keys: Seq<Key>,
    ages: Seq<nat>,
    values: Seq<Value>,
)
    requires
        serves_in_turn(caches, keys, ages, values),
        forall|i: int|
            0 <= i < ages.len() ==> !caches[i].present_and_valid_at(keys[i], #[trigger] ages[i]),
    ensures
        caches.last().generated() == caches[0].generated() + ages.len(),
        forall|i: int|
            0 <= i < caches.len() ==> (#[trigger] caches[i]).generated() == caches[0].generated()
                + i,
        forall|i: int|
            0 <= i < ages.len() ==> {
                &&& caches[i + 1].entries().contains_key(#[trigger] keys[i])
                &&& caches[i + 1].entries()[keys[i]]@ == values[i]
            },
    decreases ages.len(),
{
    if ages.len() > 0 {
        let n = ages.len() - 1;
        misses_generate_each_time(
            caches.drop_last(),
            keys.drop_last(),
            ages.drop_last(),
            values.drop_last(),
        );
        assert(caches[n].serves(keys[n], ages[n], values[n], caches[n + 1]));
        assert forall|i: int| 0 <= i < caches.len() implies (#[trigger] caches[i]).generated()
            == caches[0].generated() + i by {
            if i <= n {
                assert(caches.drop_last()[i] == caches[i]);
            }
        }
        assert forall|i: int| 0 <= i < ages.len() implies {
            &&& caches[i + 1].entries().contains_key(#[trigger] keys[i])
            &&& caches[i + 1].entries()[keys[i]]@ == values[i]
        } by {
            if i < n {
                assert(keys.drop_last()[i] == keys[i]);
            }
        }
    }
}

} // verus!
