use crate::clock::nanos_between;
use crate::clock::now;
use crate::clock::time_between;
use crate::clock::whole_nanos;
use crate::time_span::TimeSpan;
use std::time::Instant;
use vstd::prelude::*;

verus! {

/// Whether a value that has been stored for `time_lived` nanoseconds is still
/// to be trusted under a time to live of `time_to_live` nanoseconds: only
/// while it is strictly younger than that.
pub open spec fn valid_at_age(time_to_live: nat, time_lived: nat) -> bool {
    time_to_live > time_lived
}

/// A value together with the instant at which it was stored.
///
/// Both are set once, when the value is stored, and never change. The view is
/// the value; [`TimedData::stored_at`] is the instant.
pub struct TimedData<T> {
    item: T,
    time_stored: Instant,
}

impl<T> View for TimedData<T> {
    type V = T;

    closed spec fn view(&self) -> T {
        self.item
    }
}

impl<T> TimedData<T> {
    /// The reading of the clock with which the value was stamped.
    pub closed spec fn stored_at(&self) -> Instant {
        self.time_stored
    }

    /// How long the value has been stored when the clock reads `current`, in
    /// nanoseconds.
    pub open spec fn age_at(&self, current: Instant) -> nat {
        nanos_between(self.stored_at(), current)
    }

    /// Stores `item`, stamped with the current reading of the clock.
    pub fn new(item: T) -> (timed: TimedData<T>)
        ensures
            timed@ == item,
    {
        TimedData::stamped(item, now())
    }

    /// Stores `item`, stamped with the reading `at`.
    pub fn stamped(item: T, at: Instant) -> (timed: TimedData<T>)
        ensures
            timed@ == item,
            timed.stored_at() == at,
    {
        TimedData { item, time_stored: at }
    }

    /// The stored value.
    pub fn item(&self) -> (item: &T)
        ensures
            *item == self@,
    {
        &self.item
    }

    /// How long the value has been stored, as the clock shows it now.
    pub(crate) fn time_lived(&self) -> (lived: TimeSpan)
        ensures
            exists|current: Instant| lived@ == #[trigger] self.age_at(current),
    {
        let current = now();
        let lived = self.time_lived_at(&current);
        assert(lived@ == self.age_at(current));
        lived
    }

    /// How long the value has been stored when the clock reads `current`.
    pub fn time_lived_at(&self, current: &Instant) -> (lived: TimeSpan)
        ensures
            lived@ == self.age_at(*current),
    {
        let lived = time_between(&self.time_stored, current);
        TimeSpan::from_nanos(whole_nanos(&lived))
    }

    /// Whether the value is still valid under `time_to_live`, as the clock
    /// shows it now: whether `time_to_live` outlasts the time for which the
    /// value has been stored.
    ///
    /// The answer is the one that [`TimedData::still_valid_at`] gives for the
    /// reading that the call takes of the clock. Which reading that is cannot
    /// be said; under a time to live of zero it makes no difference.
    pub fn still_valid(&self, time_to_live: TimeSpan) -> (valid: bool)
        ensures
            exists|current: Instant|
                valid == valid_at_age(time_to_live@, #[trigger] self.age_at(current)),
            time_to_live@ == 0 ==> !valid,
    {
        let current = now();
        let valid = self.still_valid_at(time_to_live, &current);
        assert(valid == valid_at_age(time_to_live@, self.age_at(current)));
        valid
    }

    /// Whether the value is still valid under `time_to_live` when the clock
    /// reads `current`: only while it has been stored for strictly less than
    /// `time_to_live`.
    pub fn still_valid_at(&self, time_to_live: TimeSpan, current: &Instant) -> (valid: bool)
        ensures
            valid == valid_at_age(time_to_live@, self.age_at(*current)),
    {
        // A value is still valid if it has not been alive for as long as
        // the specified time to live.
        let time_lived_thus_far = self.time_lived_at(current);
        time_to_live.outlasts(&time_lived_thus_far)
    }
}

} // verus!
