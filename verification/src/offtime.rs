//! The [`Off`] trait and the [`OffDays`] store of days off.
//!
//! A day off is a weekday together with the parity of the ISO weeks it
//! applies to; on such a day the status is not updated.

use vstd::prelude::*;

use crate::clock::today_weekday_and_iso_week;
use crate::utils::{parse_from_hmstr, spec_parse_hm, view_opt_str};

verus! {

/// The working day has not begun or is already over: the current time of
/// day lies strictly before `begin` or strictly after `end`.  A bound that
/// is absent or does not parse does not constrain that side.
pub open spec fn spec_outside_hours(
    begin: Option<Seq<char>>,
    end: Option<Seq<char>>,
    now_seconds_of_day: int,
) -> bool {
    ||| (match spec_parse_hm(begin) {
        Some(t) => now_seconds_of_day < t.spec_seconds(),
        None => false,
    })
    ||| (match spec_parse_hm(end) {
        Some(t) => now_seconds_of_day > t.spec_seconds(),
        None => false,
    })
}

/// Decide whether the given time of day lies outside the configured
/// working hours (see [`spec_outside_hours`]).
pub fn is_outside_hours(begin: &Option<String>, end: &Option<String>, now_seconds_of_day: u32) -> (r:
    bool)
    ensures
        r == spec_outside_hours(view_opt_str(*begin), view_opt_str(*end), now_seconds_of_day as int),
{
    let mut off = false;
    if let Some(b) = parse_from_hmstr(begin) {
        if now_seconds_of_day < b.seconds() {
            off = true;
        }
    }
    if let Some(e) = parse_from_hmstr(end) {
        if now_seconds_of_day > e.seconds() {
            off = true;
        }
    }
    off
}

/// Manage the time where the application shall not update the status
/// because the user is not working.
pub trait Off {
    /// Is the user off now?
    fn is_off_time(&self) -> bool;
}

/// A day of the week.
#[derive(Debug, PartialEq, Eq, Structural, Clone, Copy)]
pub enum Weekday {
    Mon,
    Tue,
    Wed,
    Thu,
    Fri,
    Sat,
    Sun,
}

/// The weekday numbered `n` days after Monday.
pub open spec fn spec_weekday_from_number(n: int) -> Weekday {
    if n == 0 {
        Weekday::Mon
    } else if n == 1 {
        Weekday::Tue
    } else if n == 2 {
        Weekday::Wed
    } else if n == 3 {
        Weekday::Thu
    } else if n == 4 {
        Weekday::Fri
    } else if n == 5 {
        Weekday::Sat
    } else {
        Weekday::Sun
    }
}

/// The weekday numbered `n` days after Monday.
pub fn weekday_from_number(n: u32) -> (r: Weekday)
    requires
        n < 7,
    ensures
        r == spec_weekday_from_number(n as int),
{
    if n == 0 {
        Weekday::Mon
    } else if n == 1 {
        Weekday::Tue
    } else if n == 2 {
        Weekday::Wed
    } else if n == 3 {
        Weekday::Thu
    } else if n == 4 {
        Weekday::Fri
    } else if n == 5 {
        Weekday::Sat
    } else {
        Weekday::Sun
    }
}

/// The parity of the ISO weeks for which a day off applies.
#[derive(Debug, PartialEq, Eq, Structural, Clone, Copy)]
pub enum Parity {
    /// Day off for all weeks.
    EveryWeek,
    /// Day off only for odd weeks.
    OddWeek,
    /// Day off only for even weeks.
    EvenWeek,
}

/// The parity stored for `d`, with the most recent insertion winning.
pub open spec fn spec_lookup(days: Seq<(Weekday, Parity)>, d: Weekday) -> Option<Parity>
    decreases days.len(),
{
    if days.len() == 0 {
        None
    } else if days[0].0 == d {
        Some(days[0].1)
    } else {
        spec_lookup(days.drop_first(), d)
    }
}

/// The user is off on weekday `d` of ISO week `w` exactly when a day off is
/// stored for `d` and its parity admits `w`.
pub open spec fn spec_is_off_at(days: Seq<(Weekday, Parity)>, d: Weekday, w: int) -> bool {
    match spec_lookup(days, d) {
        None => false,
        Some(Parity::EveryWeek) => true,
        Some(Parity::OddWeek) => w % 2 == 1,
        Some(Parity::EvenWeek) => w % 2 == 0,
    }
}

/// A map of weekday to parity describing the days off.
#[derive(Debug)]
pub struct OffDays {
    days: Vec<(Weekday, Parity)>,
}

impl View for OffDays {
    type V = Seq<(Weekday, Parity)>;

    closed spec fn view(&self) -> Seq<(Weekday, Parity)> {
        self.days@
    }
}

impl Default for OffDays {
    /// No days off at all.
    fn default() -> (r: Self)
        ensures
            r@.len() == 0,
    {
        OffDays::new()
    }
}

impl OffDays {
    /// Create a new empty `OffDays` instance.
    pub fn new() -> (r: OffDays)
        ensures
            r@.len() == 0,
    {
        OffDays { days: Vec::new() }
    }

    /// Insert a day off for weeks of `parity`, returning the parity it had
    /// before, if any.  The new entry wins over an earlier one for the same
    /// day; other days are unaffected.
    pub fn insert(&mut self, day: Weekday, parity: Parity) -> (r: Option<Parity>)
        ensures
            r == spec_lookup(old(self)@, day),
            spec_lookup(final(self)@, day) == Some(parity),
            forall|d: Weekday| d != day ==> spec_lookup(final(self)@, d) == spec_lookup(
                old(self)@,
                d,
            ),
    {
        let previous = self.lookup(day);
        self.days.insert(0, (day, parity));
        assert(self@.drop_first() =~= old(self)@);
        assert forall|d: Weekday| d != day implies spec_lookup(self@, d) == spec_lookup(
            old(self)@,
            d,
        ) by {
            assert(self@[0].0 == day);
        }
        previous
    }

    /// The parity stored for `day`, if any.
    fn lookup(&self, day: Weekday) -> (r: Option<Parity>)
        ensures
            r == spec_lookup(self@, day),
    {
        let n = self.days.len();
        let mut i: usize = 0;
        while i < n
            invariant
                i <= n,
                n == self@.len(),
                forall|j: int| 0 <= j < i ==> (#[trigger] self@[j]).0 != day,
            decreases n - i,
        {
            let (d, p) = self.days[i];
            if d == day {
                proof {
                    lemma_lookup_at(self@, day, i as int);
                }
                return Some(p);
            }
            i += 1;
        }
        proof {
            lemma_lookup_none(self@, day);
        }
        None
    }

    /// The user is off if the given date's weekday is stored and either the
    /// parity is for every week or it matches the ISO week number.
    pub fn is_off_at(&self, weekday: Weekday, iso_week: u32) -> (r: bool)
        ensures
            r == spec_is_off_at(self@, weekday, iso_week as int),
    {
        match self.lookup(weekday) {
            None => false,
            Some(Parity::EveryWeek) => true,
            Some(Parity::OddWeek) => iso_week % 2 == 1,
            Some(Parity::EvenWeek) => iso_week % 2 == 0,
        }
    }

    /// Return `true` if there are no days off at all.
    pub fn is_empty(&self) -> (r: bool)
        ensures
            r == (self@.len() == 0),
    {
        self.days.len() == 0
    }
}

proof fn lemma_lookup_at(days: Seq<(Weekday, Parity)>, d: Weekday, i: int)
    requires
        0 <= i < days.len(),
        days[i].0 == d,
        forall|j: int| 0 <= j < i ==> (#[trigger] days[j]).0 != d,
    ensures
        spec_lookup(days, d) == Some(days[i].1),
    decreases i,
{
    if i > 0 {
        lemma_lookup_at(days.drop_first(), d, i - 1);
    }
}

proof fn lemma_lookup_none(days: Seq<(Weekday, Parity)>, d: Weekday)
    requires
        forall|j: int| 0 <= j < days.len() ==> (#[trigger] days[j]).0 != d,
    ensures
        spec_lookup(days, d) is None,
    decreases days.len(),
{
    if days.len() > 0 {
        lemma_lookup_none(days.drop_first(), d);
    }
}

impl Off for OffDays {
    /// The user is off exactly when today's weekday is stored with a parity
    /// that admits the current ISO week (see [`OffDays::is_off_at`]).
    fn is_off_time(&self) -> bool {
        let (wd, week) = today_weekday_and_iso_week();
        self.is_off_at(weekday_from_number(wd), week)
    }
}

} // verus!
