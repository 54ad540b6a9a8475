//! Scheduling triggers: the cron-like calendar interval.

use vstd::prelude::*;

use crate::value::{PlistValue, SpecDict, SpecValue, dict_get, dict_has_key, opt_entry, opt_u32,
    opt_u8, pairs_rep, push_opt_u32, push_opt_u8};

verus! {

broadcast use crate::value::lemma_empty_concat, crate::value::lemma_dict_get_concat,
    crate::value::lemma_opt_entry_get;

/// One calendar interval on which a job runs: five independently optional
/// fields, where an absent field is a wildcard, as in `crontab(5)`.
///
/// The documented ranges (minute 0-59, hour 0-23, day 1-31, weekday 0-7 with
/// both 0 and 7 denoting Sunday, month 1-12) are a contract on callers, not a
/// checked invariant: out-of-range values are rendered as given.
#[derive(Clone)]
pub struct CalendarInterval {
    /// The minute (0-59) on which this job will be run.
    pub minute: Option<u32>,
    /// The hour (0-23) on which this job will be run.
    pub hour: Option<u32>,
    /// The day of the month (1-31) on which this job will be run.
    pub day: Option<u32>,
    /// The weekday (0-7; 0 and 7 are Sunday) on which this job will be run.
    /// If both day and weekday are set, the job starts when either matches.
    pub weekday: Option<u8>,
    /// The month (1-12) on which this job will be run.
    pub month: Option<u8>,
}

/// The rendered dictionary entries of a [`CalendarInterval`]: one entry per
/// set field, in declaration order; wildcard (unset) fields are omitted.
pub open spec fn calendar_interval_entries(c: CalendarInterval) -> SpecDict {
    opt_entry("Minute"@, opt_u32(c.minute)) + opt_entry("Hour"@, opt_u32(c.hour)) + opt_entry(
        "Day"@,
        opt_u32(c.day),
    ) + opt_entry("Weekday"@, opt_u8(c.weekday)) + opt_entry("Month"@, opt_u8(c.month))
}

/// The rendered form of a [`CalendarInterval`].
pub open spec fn calendar_interval_value(c: CalendarInterval) -> SpecValue {
    SpecValue::Dict(calendar_interval_entries(c))
}

impl CalendarInterval {
    /// Renders the interval as a dictionary holding exactly the set fields.
    pub fn to_value(&self) -> (v: PlistValue)
        ensures
            v@ == calendar_interval_value(*self),
    {
        let mut entries: Vec<(String, PlistValue)> = Vec::new();
        push_opt_u32(&mut entries, "Minute", self.minute);
        push_opt_u32(&mut entries, "Hour", self.hour);
        push_opt_u32(&mut entries, "Day", self.day);
        push_opt_u8(&mut entries, "Weekday", self.weekday);
        push_opt_u8(&mut entries, "Month", self.month);
        proof {
            assert(pairs_rep(entries@) == calendar_interval_entries(*self));
        }
        PlistValue::Dictionary(entries)
    }
}

/// The rendered dictionary holds an entry for a calendar field exactly when
/// that field is set, carrying its exact value; a wildcard field's key never
/// appears.
pub proof fn lemma_calendar_interval_fidelity(c: CalendarInterval)
    ensures
        dict_get(calendar_interval_entries(c), "Minute"@) == opt_u32(c.minute),
        dict_get(calendar_interval_entries(c), "Hour"@) == opt_u32(c.hour),
        dict_get(calendar_interval_entries(c), "Day"@) == opt_u32(c.day),
        dict_get(calendar_interval_entries(c), "Weekday"@) == opt_u8(c.weekday),
        dict_get(calendar_interval_entries(c), "Month"@) == opt_u8(c.month),
        forall|k: Seq<char>| #[trigger] dict_has_key(calendar_interval_entries(c), k) <==> (
            (k == "Minute"@ && c.minute is Some) || (k == "Hour"@ && c.hour is Some) || (k
                == "Day"@ && c.day is Some) || (k == "Weekday"@ && c.weekday is Some) || (k
                == "Month"@ && c.month is Some)
        ),
{
    let s1 = opt_entry("Minute"@, opt_u32(c.minute));
    let s2 = opt_entry("Hour"@, opt_u32(c.hour));
    let s3 = opt_entry("Day"@, opt_u32(c.day));
    let s4 = opt_entry("Weekday"@, opt_u8(c.weekday));
    let s5 = opt_entry("Month"@, opt_u8(c.month));
    let d = s1 + s2 + s3 + s4 + s5;
    assert(calendar_interval_entries(c) == d);
    reveal_strlit("Minute");
    reveal_strlit("Hour");
    reveal_strlit("Day");
    reveal_strlit("Weekday");
    reveal_strlit("Month");
    assert("Minute"@.len() == 6);
    assert("Hour"@.len() == 4);
    assert("Day"@.len() == 3);
    assert("Weekday"@.len() == 7);
    assert("Month"@.len() == 5);
}

/// Accumulates calendar-interval fields in any order; absent fields stay
/// wildcards.
pub struct CalendarIntervalBuilder {
    /// The interval accumulated so far.
    pub interval: CalendarInterval,
}

impl Default for CalendarIntervalBuilder {
    /// Starts with every field a wildcard.
    fn default() -> (r: Self)
        ensures
            r.interval == (CalendarInterval {
                minute: None,
                hour: None,
                day: None,
                weekday: None,
                month: None,
            }),
    {
        CalendarIntervalBuilder {
            interval: CalendarInterval {
                minute: None,
                hour: None,
                day: None,
                weekday: None,
                month: None,
            },
        }
    }
}

impl CalendarIntervalBuilder {
    /// Sets the minute; the last write wins.
    pub fn minute(self, value: u32) -> (r: Self)
        ensures
            r.interval == (CalendarInterval { minute: Some(value), ..self.interval }),
    {
        CalendarIntervalBuilder {
            interval: CalendarInterval { minute: Some(value), ..self.interval },
        }
    }

    /// Sets the hour; the last write wins.
    pub fn hour(self, value: u32) -> (r: Self)
        ensures
            r.interval == (CalendarInterval { hour: Some(value), ..self.interval }),
    {
        CalendarIntervalBuilder {
            interval: CalendarInterval { hour: Some(value), ..self.interval },
        }
    }

    /// Sets the day of the month; the last write wins.
    pub fn day(self, value: u32) -> (r: Self)
        ensures
            r.interval == (CalendarInterval { day: Some(value), ..self.interval }),
    {
        CalendarIntervalBuilder {
            interval: CalendarInterval { day: Some(value), ..self.interval },
        }
    }

    /// Sets the weekday; the last write wins.
    pub fn weekday(self, value: u8) -> (r: Self)
        ensures
            r.interval == (CalendarInterval { weekday: Some(value), ..self.interval }),
    {
        CalendarIntervalBuilder {
            interval: CalendarInterval { weekday: Some(value), ..self.interval },
        }
    }

    /// Sets the month; the last write wins.
    pub fn month(self, value: u8) -> (r: Self)
        ensures
            r.interval == (CalendarInterval { month: Some(value), ..self.interval }),
    {
        CalendarIntervalBuilder {
            interval: CalendarInterval { month: Some(value), ..self.interval },
        }
    }

    /// Materializes the accumulated interval; always succeeds.
    pub fn build(self) -> (r: CalendarInterval)
        ensures
            r == self.interval,
    {
        self.interval
    }
}

} // verus!
