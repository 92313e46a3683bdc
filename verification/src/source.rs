//! Reading the entries of a calendar from the text of a calendar file.
//!
//! The text is parsed by icalendar. What comes out is turned, part by part,
//! into the plain values that the rest of the library works on.

use crate::calendar::{entries_of, CalendarEvent, CalendarEventView};
use crate::time::Instant;
use crate::util::{CalendarTime, CivilDate, CivilDateTime};
use chrono::{Datelike, Timelike};
use icalendar::Component;
use vstd::prelude::*;

verus! {

/// `NaiveDateTime` of chrono: a date and a time of day without a time zone.
/// Nothing is known here of what a value holds.
#[verifier::external_type_specification]
#[verifier::external_body]
pub struct ExNaiveDateTime(chrono::NaiveDateTime);

/// `DatePerhapsTime` of icalendar: the start or the end of a component as the
/// file gives it. Nothing is known here of what a value holds.
#[verifier::external_type_specification]
#[verifier::external_body]
pub struct ExCalendarTime(icalendar::DatePerhapsTime);

/// Takes the parts of a date-time of chrono, with the getters of `Datelike`
/// and `Timelike`.
#[verifier::external_body]
fn civil_date_time(date_time: chrono::NaiveDateTime) -> (parts: CivilDateTime) {
    CivilDateTime {
        date: CivilDate { year: date_time.year(), month: date_time.month(), day: date_time.day() },
        hour: date_time.hour(),
        minute: date_time.minute(),
        second: date_time.second(),
        nanosecond: date_time.nanosecond(),
    }
}

/// Turns a time of icalendar into a time of this library, variant by variant.
/// A date of chrono is taken by the getters of `Datelike`, a moment in UTC by
/// `DateTime::timestamp` and `DateTime::timestamp_subsec_nanos`.
#[verifier::external_body]
fn calendar_time(time: icalendar::DatePerhapsTime) -> (plain: CalendarTime) {
    match time {
        icalendar::DatePerhapsTime::Date(d) => CalendarTime::Date(
            CivilDate { year: d.year(), month: d.month(), day: d.day() },
        ),
        icalendar::DatePerhapsTime::DateTime(icalendar::CalendarDateTime::Floating(t)) =>
            CalendarTime::Floating(civil_date_time(t)),
        icalendar::DatePerhapsTime::DateTime(icalendar::CalendarDateTime::Utc(t)) =>
            CalendarTime::Utc(Instant { secs: t.timestamp(), nanos: t.timestamp_subsec_nanos() }),
        icalendar::DatePerhapsTime::DateTime(
            icalendar::CalendarDateTime::WithTimezone { date_time, tzid },
        ) => CalendarTime::WithTimezone { date_time: civil_date_time(date_time), tzid },
    }
}

/// What a component of a calendar holds where it is an event, with texts as
/// plain texts.
pub open spec fn component_view(component: Option<CalendarEvent>) -> Option<CalendarEventView> {
    match component {
        Some(entry) => Some(entry@),
        None => None,
    }
}

/// The components of a calendar, each with its texts as plain texts.
pub open spec fn components_of(
    components: Seq<Option<CalendarEvent>>,
) -> Seq<Option<CalendarEventView>> {
    Seq::new(components.len(), |i: int| component_view(components[i]))
}

/// `CalendarComponent` of icalendar: an event, a to-do or another part of a
/// calendar. Nothing is known here of what a value holds.
#[verifier::external_type_specification]
#[verifier::external_body]
pub struct ExCalendarComponent(icalendar::CalendarComponent);

/// `Calendar` of icalendar: what its parser makes of a calendar file. Nothing
/// is known here of what a value holds but through [`calendar_components`].
#[verifier::external_type_specification]
#[verifier::external_body]
pub struct ExCalendar(icalendar::Calendar);

/// What a calendar of icalendar holds: for each of its components, in their
/// order, the entry that it makes where it is an event, and `None` where it
/// is something else.
pub uninterp spec fn calendar_components(calendar: icalendar::Calendar) -> Seq<
    Option<CalendarEventView>,
>;

/// What icalendar reads from the text of a calendar file: the components of
/// the calendar, in the order of the file, or the reason for which the text
/// is no calendar.
pub uninterp spec fn parsed_calendar(
    text: Seq<char>,
) -> Result<Seq<Option<CalendarEventView>>, Seq<char>>;

/// Parses the text of a calendar file with icalendar: `Calendar` as
/// `FromStr`. Trusted: what comes out depends on the text alone.
#[verifier::external_body]
fn parse_calendar(text: &str) -> (parsed: Result<icalendar::Calendar, String>)
    ensures
        match parsed {
            Ok(calendar) => parsed_calendar(text@) == Ok::<
                Seq<Option<CalendarEventView>>,
                Seq<char>,
            >(calendar_components(calendar)),
            Err(reason) => parsed_calendar(text@) == Err::<
                Seq<Option<CalendarEventView>>,
                Seq<char>,
            >(reason@),
        },
{
    text.parse::<icalendar::Calendar>()
}

/// The number of components of a calendar of icalendar: the length of its
/// field `components`.
#[verifier::external_body]
fn component_count(calendar: &icalendar::Calendar) -> (count: usize)
    ensures
        count == calendar_components(*calendar).len(),
{
    calendar.components.len()
}

/// Hands out the component at position `i` of a calendar of icalendar, as an
/// entry where it is an event (`CalendarComponent::as_event`), with its
/// summary, start and end (`Component::get_summary`, `get_start`, `get_end`).
#[verifier::external_body]
fn component_entry(calendar: &icalendar::Calendar, i: usize) -> (entry: Option<CalendarEvent>)
    requires
        i < calendar_components(*calendar).len(),
    ensures
        component_view(entry) == calendar_components(*calendar)[i as int],
{
    calendar.components[i].as_event().map(|event| CalendarEvent {
        summary: event.get_summary().map(str::to_owned),
        start: event.get_start().map(calendar_time),
        end: event.get_end().map(calendar_time),
    })
}

/// The events among the components of a calendar, in their order.
pub open spec fn events_of(components: Seq<Option<CalendarEventView>>) -> Seq<CalendarEventView>
    decreases components.len(),
{
    if components.len() == 0 {
        Seq::empty()
    } else {
        let before = events_of(components.drop_last());
        match components.last() {
            Some(entry) => before.push(entry),
            None => before,
        }
    }
}

/// The entries of the calendar that a text holds: the events among its
/// components, in the order of the text; or the reason for which the text is
/// no calendar.
pub open spec fn calendar_of(text: Seq<char>) -> Result<Seq<CalendarEventView>, Seq<char>> {
    match parsed_calendar(text) {
        Ok(components) => Ok(events_of(components)),
        Err(reason) => Err(reason),
    }
}

/// Picks the events among the components of a calendar, in their order.
pub fn events_among(components: &Vec<Option<CalendarEvent>>) -> (events: Vec<CalendarEvent>)
    ensures
        entries_of(events@) == events_of(components_of(components@)),
{
    let mut events: Vec<CalendarEvent> = Vec::new();
    let ghost all = components_of(components@);
    let mut i: usize = 0;
    while i < components.len()
        invariant
            i <= components.len(),
            all == components_of(components@),
            entries_of(events@) == events_of(all.take(i as int)),
        decreases components.len() - i,
    {
        proof {
            assert(all.take(i + 1).drop_last() =~= all.take(i as int));
        }
        let ghost before = events@;
        match &components[i] {
            Some(entry) => {
                events.push(entry.clone());
                assert(entries_of(events@) =~= entries_of(before).push(entry@));
            },
            None => {},
        }
        i += 1;
    }
    proof {
        assert(all.take(i as int) =~= all);
    }
    events
}

/// Collects the components of a calendar of icalendar, in their order.
fn collect_components(calendar: &icalendar::Calendar) -> (components: Vec<Option<CalendarEvent>>)
    ensures
        components_of(components@) == calendar_components(*calendar),
{
    let count = component_count(calendar);
    let mut components: Vec<Option<CalendarEvent>> = Vec::new();
    let mut i: usize = 0;
    while i < count
        invariant
            i <= count,
            count == calendar_components(*calendar).len(),
            components.len() == i,
            forall|j: int|
                0 <= j < i ==> component_view(#[trigger] components[j]) == calendar_components(
                    *calendar,
                )[j],
        decreases count - i,
    {
        components.push(component_entry(calendar, i));
        i += 1;
    }
    assert(components_of(components@) =~= calendar_components(*calendar));
    components
}

/// Reads the entries of a calendar from the text of a calendar file.
pub fn read_calendar(text: &str) -> (entries: Result<Vec<CalendarEvent>, String>)
    ensures
        match entries {
            Ok(events) => calendar_of(text@) == Ok::<Seq<CalendarEventView>, Seq<char>>(
                entries_of(events@),
            ),
            Err(reason) => calendar_of(text@) == Err::<Seq<CalendarEventView>, Seq<char>>(reason@),
        },
{
    match parse_calendar(text) {
        Ok(calendar) => {
            let components = collect_components(&calendar);
            Ok(events_among(&components))
        },
        Err(reason) => Err(reason),
    }
}

} // verus!
