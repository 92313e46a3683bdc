//! Calendar times and their reading as moments in UTC.

use crate::time::Instant;
use vstd::prelude::*;

verus! {

/// A day of the calendar: year, month (1 to 12) and day of the month.
#[derive(Debug, Clone, Copy, PartialEq, Eq, Structural)]
pub struct CivilDate {
    pub year: i32,
    pub month: u32,
    pub day: u32,
}

/// A day and a time of day on the wall clock: hour, minute and second, and
/// the nanoseconds on top of the second.
#[derive(Debug, Clone, Copy, PartialEq, Eq, Structural)]
pub struct CivilDateTime {
    pub date: CivilDate,
    pub hour: u32,
    pub minute: u32,
    pub second: u32,
    pub nanosecond: u32,
}

/// A time as a calendar file can give it.
#[derive(Debug)]
pub enum CalendarTime {
    /// A whole day, with no time of day.
    Date(CivilDate),
    /// A wall-clock time that belongs to no time zone.
    Floating(CivilDateTime),
    /// A moment in UTC.
    Utc(Instant),
    /// A wall-clock time in the time zone named `tzid`.
    WithTimezone { date_time: CivilDateTime, tzid: String },
}

/// What a [`CalendarTime`] holds, with the name of the time zone as plain
/// text.
pub enum CalendarTimeView {
    Date(CivilDate),
    Floating(CivilDateTime),
    Utc(Instant),
    WithTimezone { date_time: CivilDateTime, tzid: Seq<char> },
}

impl View for CalendarTime {
    type V = CalendarTimeView;

    open spec fn view(&self) -> CalendarTimeView {
        match *self {
            CalendarTime::Date(d) => CalendarTimeView::Date(d),
            CalendarTime::Floating(date_time) => CalendarTimeView::Floating(date_time),
            CalendarTime::Utc(moment) => CalendarTimeView::Utc(moment),
            CalendarTime::WithTimezone { date_time, tzid } => CalendarTimeView::WithTimezone {
                date_time,
                tzid: tzid@,
            },
        }
    }
}

impl Clone for CalendarTime {
    fn clone(&self) -> (copy: Self)
        ensures
            copy@ == self@,
    {
        match self {
            CalendarTime::Date(d) => CalendarTime::Date(*d),
            CalendarTime::Floating(date_time) => CalendarTime::Floating(*date_time),
            CalendarTime::Utc(moment) => CalendarTime::Utc(*moment),
            CalendarTime::WithTimezone { date_time, tzid } => CalendarTime::WithTimezone {
                date_time: *date_time,
                tzid: tzid.clone(),
            },
        }
    }
}

/// Seconds from 1970-01-01T00:00:00Z to the start of the given second of the
/// wall clock, read as UTC, as chrono counts them; `None` where chrono has no
/// such date or time of day.
pub uninterp spec fn utc_timestamp(
    year: i32,
    month: u32,
    day: u32,
    hour: u32,
    minute: u32,
    second: u32,
) -> Option<i64>;

/// Reads a second of the wall clock as UTC with chrono:
/// `NaiveDate::from_ymd_opt` and `NaiveDate::and_hms_opt` build the time,
/// `TimeZone::from_utc_datetime` of `Utc` takes it as UTC, and
/// `DateTime::timestamp` gives the seconds. Trusted: the result depends on the
/// six numbers alone. It is `None` where one of the first two calls refuses
/// them.
#[verifier::external_body]
fn civil_timestamp(
    year: i32,
    month: u32,
    day: u32,
    hour: u32,
    minute: u32,
    second: u32,
) -> (stamp: Option<i64>)
    ensures
        stamp == utc_timestamp(year, month, day, hour, minute, second),
{
    let date = chrono::NaiveDate::from_ymd_opt(year, month, day)?;
    let wall_clock = date.and_hms_opt(hour, minute, second)?;
    Some(chrono::TimeZone::from_utc_datetime(&chrono::Utc, &wall_clock).timestamp())
}

/// The moment `nanos` nanoseconds into a second that is counted from
/// 1970-01-01T00:00:00Z, where there is such a second.
pub open spec fn within_second(stamp: Option<i64>, nanos: u32) -> Option<Instant> {
    match stamp {
        Some(secs) => Some(Instant { secs, nanos }),
        None => None,
    }
}

/// The moment at which a wall-clock time is reached in UTC.
pub open spec fn wall_clock_in_utc(t: CivilDateTime) -> Option<Instant> {
    within_second(
        utc_timestamp(t.date.year, t.date.month, t.date.day, t.hour, t.minute, t.second),
        t.nanosecond,
    )
}

/// The first moment of a day.
pub open spec fn midnight(d: CivilDate) -> CivilDateTime {
    CivilDateTime { date: d, hour: 0, minute: 0, second: 0, nanosecond: 0 }
}

/// The first moment of a day in UTC.
pub open spec fn midnight_in_utc(d: CivilDate) -> Option<Instant> {
    wall_clock_in_utc(midnight(d))
}

/// The moment that a calendar time stands for: a moment in UTC is itself; a
/// wall-clock time, with a time zone or without, is read as if the clock
/// showed UTC; a whole day is its first moment in UTC.
pub open spec fn utc_of(t: CalendarTimeView) -> Option<Instant> {
    match t {
        CalendarTimeView::Date(d) => midnight_in_utc(d),
        CalendarTimeView::Floating(date_time) => wall_clock_in_utc(date_time),
        CalendarTimeView::Utc(moment) => Some(moment),
        CalendarTimeView::WithTimezone { date_time, tzid } => wall_clock_in_utc(date_time),
    }
}

/// The moment `nanos` nanoseconds into a second that is counted from
/// 1970-01-01T00:00:00Z, where there is such a second.
pub fn instant_within_second(stamp: Option<i64>, nanos: u32) -> (moment: Option<Instant>)
    ensures
        moment == within_second(stamp, nanos),
{
    match stamp {
        Some(secs) => Some(Instant { secs, nanos }),
        None => None,
    }
}

/// The moment at which a wall-clock time is reached in UTC. Gives `None`
/// where the day or the time of day does not exist.
pub fn wall_clock_to_utc(t: &CivilDateTime) -> (moment: Option<Instant>)
    ensures
        moment == wall_clock_in_utc(*t),
{
    instant_within_second(
        civil_timestamp(t.date.year, t.date.month, t.date.day, t.hour, t.minute, t.second),
        t.nanosecond,
    )
}

/// Turns a calendar time into a moment in UTC. Gives `None` where the day or
/// the time of day does not exist.
pub fn date_perhaps_time_to_utc(dpt: &CalendarTime) -> (moment: Option<Instant>)
    ensures
        moment == utc_of(dpt@),
{
    match dpt {
        CalendarTime::Date(d) => {
            wall_clock_to_utc(
                &CivilDateTime { date: *d, hour: 0, minute: 0, second: 0, nanosecond: 0 },
            )
        },
        CalendarTime::Floating(date_time) => wall_clock_to_utc(date_time),
        CalendarTime::Utc(moment) => Some(*moment),
        CalendarTime::WithTimezone { date_time, tzid: _ } => wall_clock_to_utc(date_time),
    }
}

/// The time zone of a wall-clock time plays no part: two times with the same
/// wall clock stand for the same moment, whatever zones they name.
pub proof fn lemma_time_zone_is_not_looked_at(
    date_time: CivilDateTime,
    tzid: Seq<char>,
    other_tzid: Seq<char>,
)
    ensures
        utc_of(CalendarTimeView::WithTimezone { date_time, tzid }) == utc_of(
            CalendarTimeView::WithTimezone { date_time, tzid: other_tzid },
        ),
        utc_of(CalendarTimeView::WithTimezone { date_time, tzid }) == utc_of(
            CalendarTimeView::Floating(date_time),
        ),
{
}

} // verus!
