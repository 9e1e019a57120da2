use chrono::Datelike;
use std::collections::HashMap;
use vstd::prelude::*;

verus! {

broadcast use vstd::std_specs::hash::group_hash_axioms;

/// A calendar day, counted as chrono counts days from the common era
/// (January 1 of year 1 is day 1).
pub type DayNumber = i32;

/// Seconds of tracked time accumulated per calendar day.
#[derive(Debug, Clone)]
pub struct TrackHistory {
    pub history: HashMap<DayNumber, u64>,
}

impl View for TrackHistory {
    type V = Map<DayNumber, u64>;

    open spec fn view(&self) -> Map<DayNumber, u64> {
        self.history@
    }
}

/// Seconds recorded for `day`; a day without an entry counts as zero.
pub open spec fn tracked_on(m: Map<DayNumber, u64>, day: DayNumber) -> u64 {
    if m.contains_key(day) {
        m[day]
    } else {
        0
    }
}

/// `n` clamped to what a `u64` holds.
pub open spec fn clamp_u64(n: nat) -> u64 {
    if n > u64::MAX {
        u64::MAX
    } else {
        n as u64
    }
}

/// The history after `seconds` more were tracked on `day` (the per-day total
/// saturates at `u64::MAX`).
pub open spec fn add_to_day(m: Map<DayNumber, u64>, day: DayNumber, seconds: nat) -> Map<
    DayNumber,
    u64,
> {
    m.insert(day, clamp_u64((tracked_on(m, day) + seconds) as nat))
}

/// The history with every entry but `day`'s dropped.
pub open spec fn only_day(m: Map<DayNumber, u64>, day: DayNumber) -> Map<DayNumber, u64> {
    if m.contains_key(day) {
        Map::empty().insert(day, m[day])
    } else {
        Map::empty()
    }
}

/// Relies on `std::time::SystemTime::now` and chrono's
/// `DateTime<Utc>: From<SystemTime>` with `Datelike::num_days_from_ce`: the
/// current UTC date as a day number. It depends on the clock, so nothing is
/// promised of the value. The conversion accepts readings before 1970 as
/// well as after; it fails only beyond chrono's range of about 262,000 years
/// either side of year 0, which no system clock reports.
#[verifier::external_body]
fn current_day() -> (r: DayNumber) {
    chrono::DateTime::<chrono::Utc>::from(std::time::SystemTime::now()).num_days_from_ce()
}

impl TrackHistory {
    /// An empty history.
    pub fn new() -> (t: Self)
        ensures
            t@ == Map::<DayNumber, u64>::empty(),
    {
        TrackHistory { history: HashMap::new() }
    }

    /// Seconds tracked on `day`, zero if it has no entry.
    pub fn get_track_for_day(&self, day: DayNumber) -> (r: u64)
        ensures
            r == tracked_on(self@, day),
    {
        match self.history.get(&day) {
            Some(v) => *v,
            None => 0,
        }
    }

    /// Adds `seconds` to the entry of `day`, creating it if absent.
    pub fn increment_track_for_day(&mut self, day: DayNumber, seconds: u64)
        ensures
            final(self)@ == add_to_day(old(self)@, day, seconds as nat),
    {
        let current = self.get_track_for_day(day);
        self.history.insert(day, current.saturating_add(seconds));
    }

    /// Drops every entry but the one of `today`.
    pub fn clean_up_for_day(&mut self, today: DayNumber)
        ensures
            final(self)@ == only_day(old(self)@, today),
    {
        let mut kept: HashMap<DayNumber, u64> = HashMap::new();
        match self.history.get(&today) {
            Some(v) => {
                kept.insert(today, *v);
            },
            None => {},
        }
        assert(kept@ =~= only_day(self@, today));
        self.history = kept;
    }

    /// Seconds tracked today (by the UTC date of the clock): the entry of
    /// whichever day the clock gives.
    pub fn get_track_for_today(&self) -> (r: u64)
        ensures
            exists|day: DayNumber| r == tracked_on(self@, day),
    {
        let today = current_day();
        self.get_track_for_day(today)
    }

    /// Adds `timestamp` seconds to today's entry (by the UTC date of the
    /// clock), creating it if absent.
    pub fn increment_track_for_today(&mut self, timestamp: u64)
        ensures
            exists|day: DayNumber| final(self)@ == add_to_day(old(self)@, day, timestamp as nat),
    {
        let today = current_day();
        self.increment_track_for_day(today, timestamp);
    }

    /// Drops every entry but today's (by the UTC date of the clock). At most
    /// one entry remains.
    pub fn clean_up(&mut self)
        ensures
            exists|day: DayNumber| final(self)@ == only_day(old(self)@, day),
            final(self)@.len() <= 1,
    {
        let today = current_day();
        self.clean_up_for_day(today);
        proof {
            lemma_clean_up_keeps_at_most_today(old(self)@, today);
        }
    }
}

/// Increments on one day combine: adding `a` and then `b` seconds gives the
/// same history as adding `a + b` at once, and as adding them in the other
/// order.
pub proof fn lemma_increments_combine(m: Map<DayNumber, u64>, day: DayNumber, a: nat, b: nat)
    ensures
        add_to_day(add_to_day(m, day, a), day, b) == add_to_day(m, day, a + b),
        add_to_day(add_to_day(m, day, a), day, b) == add_to_day(add_to_day(m, day, b), day, a),
{
    assert(add_to_day(add_to_day(m, day, a), day, b) =~= add_to_day(m, day, a + b));
    assert(add_to_day(add_to_day(m, day, b), day, a) =~= add_to_day(m, day, b + a));
}

/// Cleaning up leaves today's entry, unchanged, if there was one, and no
/// other: at most one key remains.
pub proof fn lemma_clean_up_keeps_at_most_today(m: Map<DayNumber, u64>, today: DayNumber)
    ensures
        only_day(m, today).dom().subset_of(set![today]),
        only_day(m, today).len() <= 1,
        only_day(m, today).contains_key(today) <==> m.contains_key(today),
        m.contains_key(today) ==> only_day(m, today)[today] == m[today],
        !m.contains_key(today) ==> only_day(m, today).len() == 0,
{
    if m.contains_key(today) {
        assert(only_day(m, today).dom() =~= set![today]);
        assert(set![today].len() == 1);
    } else {
        assert(only_day(m, today).dom() =~= Set::<DayNumber>::empty());
    }
}

} // verus!
