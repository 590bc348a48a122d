use vstd::prelude::*;

verus! {

/// Length of one in-game day, in nanoseconds of real time.
pub const DAY_DURATION_NANOS: u64 = 2_000_000_000;

/// The twelve months of the in-game year.
#[derive(Clone, Copy, Debug, PartialEq, Eq, Structural)]
pub enum Months {
    January,
    February,
    March,
    April,
    May,
    June,
    July,
    August,
    September,
    October,
    November,
    December,
}

impl Months {
    /// Position of the month in the year, January being 0.
    pub open spec fn index(self) -> nat {
        match self {
            Months::January => 0,
            Months::February => 1,
            Months::March => 2,
            Months::April => 3,
            Months::May => 4,
            Months::June => 5,
            Months::July => 6,
            Months::August => 7,
            Months::September => 8,
            Months::October => 9,
            Months::November => 10,
            Months::December => 11,
        }
    }

    /// Number of days in the month: February has 28, April, June, September
    /// and November have 30, every other month has 31.
    pub open spec fn length(self) -> nat {
        match self {
            Months::February => 28,
            Months::April | Months::June | Months::September | Months::November => 30,
            _ => 31,
        }
    }

    /// The month that follows, December being followed by January.
    pub open spec fn successor(self) -> Months {
        match self {
            Months::January => Months::February,
            Months::February => Months::March,
            Months::March => Months::April,
            Months::April => Months::May,
            Months::May => Months::June,
            Months::June => Months::July,
            Months::July => Months::August,
            Months::August => Months::September,
            Months::September => Months::October,
            Months::October => Months::November,
            Months::November => Months::December,
            Months::December => Months::January,
        }
    }

    pub fn days(&self) -> (r: u8)
        ensures
            r as nat == self.length(),
            28 <= r <= 31,
    {
        match self {
            Months::January => 31,
            Months::February => 28,
            Months::March => 31,
            Months::April => 30,
            Months::May => 31,
            Months::June => 30,
            Months::July => 31,
            Months::August => 31,
            Months::September => 30,
            Months::October => 31,
            Months::November => 30,
            Months::December => 31,
        }
    }

    pub fn next(&self) -> (r: Months)
        ensures
            r == self.successor(),
            r.index() == (self.index() + 1) % 12,
    {
        match self {
            Months::January => Months::February,
            Months::February => Months::March,
            Months::March => Months::April,
            Months::April => Months::May,
            Months::May => Months::June,
            Months::June => Months::July,
            Months::July => Months::August,
            Months::August => Months::September,
            Months::September => Months::October,
            Months::October => Months::November,
            Months::November => Months::December,
            Months::December => Months::January,
        }
    }
}

impl Default for Months {
    fn default() -> (r: Months)
        ensures
            r == Months::January,
    {
        Months::January
    }
}

/// The current in-game date.
#[derive(Clone, Copy, Debug, PartialEq, Eq, Structural)]
pub struct Calendar {
    pub month: Months,
    pub day: u8,
}

/// The date that follows `c`: the next day of the month, or the first day of
/// the next month when `c` is the last day of its month.
pub open spec fn next_date(c: Calendar) -> Calendar {
    if c.day as nat >= c.month.length() {
        Calendar { month: c.month.successor(), day: 1 }
    } else {
        Calendar { month: c.month, day: (c.day + 1) as u8 }
    }
}

/// The date reached from `c` after `n` days.
pub open spec fn after_days(c: Calendar, n: nat) -> Calendar
    decreases n,
{
    if n == 0 {
        c
    } else {
        next_date(after_days(c, (n - 1) as nat))
    }
}

impl Calendar {
    /// The day lies within its month.
    pub open spec fn wf(self) -> bool {
        1 <= self.day && self.day as nat <= self.month.length()
    }

    /// Moves the date on by one day, rolling over to the first day of the
    /// next month at the end of a month.
    pub fn advance_day(&mut self)
        requires
            old(self).wf(),
        ensures
            *final(self) == next_date(*old(self)),
            final(self).wf(),
    {
        let days_in_month = self.month.days();
        if self.day >= days_in_month {
            self.day = 1;
            self.month = self.month.next();
        } else {
            self.day = self.day + 1;
        }
    }
}

impl Default for Calendar {
    fn default() -> (r: Calendar)
        ensures
            r == (Calendar { month: Months::January, day: 1 }),
            r.wf(),
    {
        Calendar { month: Months::January, day: 1 }
    }
}

/// The clock's accumulator after a frame of `delta_nanos` nanoseconds is
/// added to it, saturating at `u64::MAX`.
pub open spec fn accumulated(last_update: u64, delta_nanos: u64) -> u64 {
    if last_update + delta_nanos > u64::MAX {
        u64::MAX
    } else {
        (last_update + delta_nanos) as u64
    }
}

/// One frame of the calendar clock. The frame's elapsed time is added to the
/// accumulator in `last_update`; when the sum reaches a day's duration, the
/// date moves on by one day and the accumulator restarts from exactly zero,
/// dropping any excess.
pub fn update_calendar(calendar: &mut Calendar, last_update: &mut u64, delta_nanos: u64)
    requires
        old(calendar).wf(),
    ensures
        final(calendar).wf(),
        accumulated(*old(last_update), delta_nanos) >= DAY_DURATION_NANOS ==> *final(calendar)
            == next_date(*old(calendar)) && *final(last_update) == 0,
        accumulated(*old(last_update), delta_nanos) < DAY_DURATION_NANOS ==> *final(calendar)
            == *old(calendar) && *final(last_update) == accumulated(*old(last_update), delta_nanos),
{
    *last_update = last_update.saturating_add(delta_nanos);
    if *last_update >= DAY_DURATION_NANOS {
        calendar.advance_day();
        *last_update = 0;
    }
}

/// Every date reached from a valid date, after any number of days, is valid:
/// the day never exceeds the length of its month.
pub proof fn lemma_after_days_valid(c: Calendar, n: nat)
    requires
        c.wf(),
    ensures
        after_days(c, n).wf(),
    decreases n,
{
    if n > 0 {
        lemma_after_days_valid(c, (n - 1) as nat);
    }
}

/// Within a month, `k` days after day `d` is day `d + k` of the same month.
pub proof fn lemma_after_days_within_month(c: Calendar, k: nat)
    requires
        c.wf(),
        c.day + k <= c.month.length(),
    ensures
        after_days(c, k) == (Calendar { month: c.month, day: (c.day + k) as u8 }),
    decreases k,
{
    if k > 0 {
        lemma_after_days_within_month(c, (k - 1) as nat);
    }
}

/// Starting from the first day of a month, advancing day by day for as many
/// days as the month has leads to the first day of the next month; from
/// December this wraps round to the first of January.
pub proof fn lemma_month_rollover(c: Calendar)
    requires
        c.wf(),
        c.day == 1,
    ensures
        after_days(c, c.month.length()) == (Calendar { month: c.month.successor(), day: 1 }),
        c.month == Months::December ==> after_days(c, c.month.length()) == (Calendar {
            month: Months::January,
            day: 1,
        }),
{
    let n = c.month.length();
    lemma_after_days_within_month(c, (n - 1) as nat);
    assert(after_days(c, n) == next_date(after_days(c, (n - 1) as nat)));
}

} // verus!
