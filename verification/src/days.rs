//! A set of calendar dates, for half-day calendars.

use crate::clock::Date;
use crate::market::Days;
use std::collections::HashSet;
use vstd::prelude::*;

verus! {

/// The number that stands for a date in the set: year, month and day side
/// by side.  Different dates have different numbers.
pub open spec fn date_key(date: Date) -> int {
    date.year * 65_536 + date.month * 256 + date.day
}

/// A set of calendar dates.
pub struct DateSet {
    keys: HashSet<i64>,
}

impl View for DateSet {
    type V = Set<Date>;

    closed spec fn view(&self) -> Set<Date> {
        Set::new(|date: Date| self.keys@.contains(date_key(date) as i64))
    }
}

impl DateSet {
    /// The empty set.
    pub fn new() -> (r: DateSet)
        ensures
            r@ == Set::<Date>::empty(),
    {
        let r = DateSet { keys: HashSet::new() };
        assert(r@ =~= Set::<Date>::empty());
        r
    }

    fn key(date: Date) -> (r: i64)
        ensures
            r == date_key(date),
    {
        date.year as i64 * 65_536 + date.month as i64 * 256 + date.day as i64
    }

    /// Adds `date` to the set; says whether it was new.
    pub fn insert(&mut self, date: Date) -> (r: bool)
        ensures
            final(self)@ == old(self)@.insert(date),
            r == !old(self)@.contains(date),
    {
        broadcast use vstd::std_specs::hash::group_hash_axioms;

        let r: bool = self.keys.insert(DateSet::key(date));
        assert(self@ =~= old(self)@.insert(date));
        r
    }

    /// Whether the set holds `date`.
    pub fn contains(&self, date: Date) -> (r: bool)
        ensures
            r == self@.contains(date),
    {
        broadcast use vstd::std_specs::hash::group_hash_axioms;

        let key: i64 = DateSet::key(date);
        self.keys.contains(&key)
    }

    /// The set of the given dates.
    pub fn from_dates(dates: &Vec<Date>) -> (r: DateSet)
        ensures
            forall|date: Date| r@.contains(date) <==> dates@.contains(date),
    {
        let mut set: DateSet = DateSet::new();
        let mut idx: usize = 0;
        while idx < dates.len()
            invariant
                0 <= idx <= dates.len(),
                forall|date: Date|
                    set@.contains(date) <==> exists|j: int|
                        0 <= j < idx && dates@[j] == date,
            decreases dates.len() - idx,
        {
            set.insert(dates[idx]);
            idx += 1;
        }
        set
    }
}

/// The dates of the set are the half-days.
impl<'a> Days for &'a DateSet {
    open spec fn spec_contains(&self, date: Date) -> bool {
        self@.contains(date)
    }

    #[inline]
    fn contains(&self, date: Date) -> (r: bool) {
        DateSet::contains(*self, date)
    }
}

} // verus!
