//! Which event of a calendar is in progress.

use crate::first::{first_true, lemma_first_true_at, lemma_first_true_none};
use crate::text::text_of;
use crate::time::Instant;
use crate::util::{date_perhaps_time_to_utc, utc_of, CalendarTimeView, CalendarTime};
use vstd::prelude::*;

verus! {

/// An event as a calendar file holds it. Each part may be missing.
#[derive(Debug)]
pub struct CalendarEvent {
    pub summary: Option<String>,
    pub start: Option<CalendarTime>,
    pub end: Option<CalendarTime>,
}

/// What a [`CalendarEvent`] holds, with the texts as plain texts.
pub struct CalendarEventView {
    pub summary: Option<Seq<char>>,
    pub start: Option<CalendarTimeView>,
    pub end: Option<CalendarTimeView>,
}

/// What an optional calendar time holds.
pub open spec fn time_view(time: Option<CalendarTime>) -> Option<CalendarTimeView> {
    match time {
        Some(t) => Some(t@),
        None => None,
    }
}

impl View for CalendarEvent {
    type V = CalendarEventView;

    open spec fn view(&self) -> CalendarEventView {
        CalendarEventView {
            summary: text_of(self.summary),
            start: time_view(self.start),
            end: time_view(self.end),
        }
    }
}

impl Clone for CalendarEvent {
    fn clone(&self) -> (copy: Self)
        ensures
            copy@ == self@,
    {
        CalendarEvent {
            summary: match &self.summary {
                Some(title) => Some(title.clone()),
                None => None,
            },
            start: match &self.start {
                Some(start) => Some(start.clone()),
                None => None,
            },
            end: match &self.end {
                Some(end) => Some(end.clone()),
                None => None,
            },
        }
    }
}

/// The entries of a calendar, each with its texts as plain texts.
pub open spec fn entries_of(entries: Seq<CalendarEvent>) -> Seq<CalendarEventView> {
    Seq::new(entries.len(), |i: int| entries[i]@)
}

/// The entries behind an optional reference to a calendar.
pub open spec fn calendar_view(
    entries: Option<&Vec<CalendarEvent>>,
) -> Option<Seq<CalendarEventView>> {
    match entries {
        Some(entries) => Some(entries_of(entries@)),
        None => None,
    }
}

/// An event with its title and its first and last moment in UTC. It is in
/// progress from `start` on and until just before `end`.
#[derive(Debug)]
pub struct Event {
    pub title: String,
    pub start: Instant,
    pub end: Instant,
}

/// What an [`Event`] holds, with the title as plain text.
pub struct EventView {
    pub title: Seq<char>,
    pub start: Instant,
    pub end: Instant,
}

impl View for Event {
    type V = EventView;

    open spec fn view(&self) -> EventView {
        EventView { title: self.title@, start: self.start, end: self.end }
    }
}

impl Clone for Event {
    fn clone(&self) -> (copy: Self)
        ensures
            copy@ == self@,
    {
        Event { title: self.title.clone(), start: self.start, end: self.end }
    }
}

/// The event that a calendar entry describes, where it has a title, a start
/// and an end, and both times exist.
pub open spec fn event_of(entry: CalendarEventView) -> Option<EventView> {
    match (entry.summary, entry.start, entry.end) {
        (Some(title), Some(start), Some(end)) => match (utc_of(start), utc_of(end)) {
            (Some(start), Some(end)) => Some(EventView { title, start, end }),
            _ => None,
        },
        _ => None,
    }
}

/// The event is in progress at `now`: it has started and has not ended.
pub open spec fn in_progress(event: EventView, now: Instant) -> bool {
    !now.before(event.start) && now.before(event.end)
}

/// The entry describes an event that is in progress at `now`.
pub open spec fn entry_in_progress(entry: CalendarEventView, now: Instant) -> bool {
    event_of(entry) matches Some(event) && in_progress(event, now)
}

/// For each entry, whether it describes an event that is in progress at `now`.
pub open spec fn progress_flags(entries: Seq<CalendarEventView>, now: Instant) -> Seq<bool> {
    Seq::new(entries.len(), |i: int| entry_in_progress(entries[i], now))
}

/// The event in progress at `now`: that of the first entry, in calendar order,
/// that describes one. There is none in a calendar that could not be read.
pub open spec fn current_event(
    entries: Option<Seq<CalendarEventView>>,
    now: Instant,
) -> Option<EventView> {
    match entries {
        Some(entries) => match first_true(progress_flags(entries, now)) {
            Some(i) => event_of(entries[i]),
            None => None,
        },
        None => None,
    }
}

/// The event that a calendar entry describes, if it describes one.
pub fn entry_event(entry: &CalendarEvent) -> (event: Option<Event>)
    ensures
        match event {
            Some(e) => event_of(entry@) == Some(e@),
            None => event_of(entry@) is None,
        },
{
    match (&entry.summary, &entry.start, &entry.end) {
        (Some(title), Some(start), Some(end)) => {
            match (date_perhaps_time_to_utc(start), date_perhaps_time_to_utc(end)) {
                (Some(start), Some(end)) => Some(Event { title: title.clone(), start, end }),
                _ => None,
            }
        },
        _ => None,
    }
}

/// Whether `event` is in progress at `now`.
pub fn is_in_progress(event: &Event, now: &Instant) -> (active: bool)
    ensures
        active == in_progress(event@, *now),
{
    !now.is_before(&event.start) && now.is_before(&event.end)
}

/// The event in progress at `now`, if there is one: the first in calendar
/// order. `None` for `entries` stands for a calendar that could not be read.
pub fn get_current_event(
    entries: Option<&Vec<CalendarEvent>>,
    now: &Instant,
) -> (current: Option<Event>)
    ensures
        match current {
            Some(event) => current_event(calendar_view(entries), *now) == Some(event@),
            None => current_event(calendar_view(entries), *now) is None,
        },
        match (entries, current) {
            (Some(list), Some(event)) => exists|i: int|
                0 <= i < list.len() && event_of(#[trigger] list[i]@) == Some(event@) && in_progress(
                    event@,
                    *now,
                ) && forall|j: int| 0 <= j < i ==> !entry_in_progress(#[trigger] list[j]@, *now),
            (Some(list), None) => forall|j: int|
                0 <= j < list.len() ==> !entry_in_progress(#[trigger] list[j]@, *now),
            (None, _) => current is None,
        },
{
    let list = match entries {
        Some(list) => list,
        None => {
            return None;
        },
    };
    let ghost flags = progress_flags(entries_of(list@), *now);
    let mut i: usize = 0;
    while i < list.len()
        invariant
            i <= list.len(),
            entries == Some(list),
            flags == progress_flags(entries_of(list@), *now),
            forall|j: int| 0 <= j < i ==> !entry_in_progress(#[trigger] list[j]@, *now),
        decreases list.len() - i,
    {
        if let Some(event) = entry_event(&list[i]) {
            if is_in_progress(&event, now) {
                proof {
                    assert forall|j: int| 0 <= j < i implies !flags[j] by {
                        assert(!entry_in_progress(list[j]@, *now));
                    }
                    lemma_first_true_at(flags, i as int);
                    assert(event_of(list[i as int]@) == Some(event@));
                }
                return Some(event);
            }
        }
        i += 1;
    }
    proof {
        assert forall|j: int| 0 <= j < flags.len() implies !flags[j] by {
            assert(!entry_in_progress(list[j]@, *now));
        }
        lemma_first_true_none(flags);
    }
    None
}

} // verus!
