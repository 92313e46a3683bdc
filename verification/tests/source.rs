use calendar2discord::calendar::{get_current_event, CalendarEvent};
use calendar2discord::source::{events_among, read_calendar};
use calendar2discord::time::Instant;
use calendar2discord::util::{date_perhaps_time_to_utc, CalendarTime, CivilDate, CivilDateTime};

const CALENDAR: &str = "BEGIN:VCALENDAR\r\n\
VERSION:2.0\r\n\
PRODID:-//example//calendar//EN\r\n\
BEGIN:VEVENT\r\n\
UID:1@example.com\r\n\
DTSTAMP:20220701T000000Z\r\n\
SUMMARY:Standup\r\n\
DTSTART:20220716T141500Z\r\n\
DTEND:20220716T143000Z\r\n\
END:VEVENT\r\n\
BEGIN:VTODO\r\n\
UID:2@example.com\r\n\
DTSTAMP:20220701T000000Z\r\n\
SUMMARY:Water the plants\r\n\
END:VTODO\r\n\
BEGIN:VEVENT\r\n\
UID:3@example.com\r\n\
DTSTAMP:20220701T000000Z\r\n\
SUMMARY:Lunch\r\n\
DTSTART:20220716T120000\r\n\
DTEND:20220716T130000\r\n\
END:VEVENT\r\n\
BEGIN:VEVENT\r\n\
UID:4@example.com\r\n\
DTSTAMP:20220701T000000Z\r\n\
SUMMARY:Workshop\r\n\
DTSTART;TZID=Europe/Berlin:20220716T090000\r\n\
DTEND;TZID=Europe/Berlin:20220716T170000\r\n\
END:VEVENT\r\n\
BEGIN:VEVENT\r\n\
UID:5@example.com\r\n\
DTSTAMP:20220701T000000Z\r\n\
SUMMARY:Holiday\r\n\
DTSTART;VALUE=DATE:20220717\r\n\
DTEND;VALUE=DATE:20220718\r\n\
END:VEVENT\r\n\
BEGIN:VEVENT\r\n\
UID:6@example.com\r\n\
DTSTAMP:20220701T000000Z\r\n\
DTSTART:20220719T100000Z\r\n\
END:VEVENT\r\n\
END:VCALENDAR\r\n";

fn at(secs: i64) -> Instant {
    Instant { secs, nanos: 0 }
}

fn clock(day: u32, hour: u32, minute: u32) -> CivilDateTime {
    CivilDateTime {
        date: CivilDate { year: 2022, month: 7, day },
        hour,
        minute,
        second: 0,
        nanosecond: 0,
    }
}

fn summaries(entries: &[CalendarEvent]) -> Vec<Option<String>> {
    entries.iter().map(|entry| entry.summary.clone()).collect()
}

fn title_at(entries: &Vec<CalendarEvent>, now: i64) -> Option<String> {
    get_current_event(Some(entries), &at(now)).map(|event| event.title)
}

#[test]
fn events_are_read_in_the_order_of_the_file() {
    let entries = read_calendar(CALENDAR).unwrap();
    assert_eq!(
        summaries(&entries),
        vec![
            Some("Standup".to_string()),
            Some("Lunch".to_string()),
            Some("Workshop".to_string()),
            Some("Holiday".to_string()),
            None,
        ]
    );
}

#[test]
fn time_in_utc_is_read_as_a_moment() {
    let entries = read_calendar(CALENDAR).unwrap();
    match &entries[0].start {
        Some(CalendarTime::Utc(moment)) => assert_eq!(*moment, at(1_657_980_900)),
        other => panic!("{:?}", other),
    }
    match &entries[0].end {
        Some(CalendarTime::Utc(moment)) => assert_eq!(*moment, at(1_657_981_800)),
        other => panic!("{:?}", other),
    }
}

#[test]
fn time_without_zone_is_read_as_wall_clock() {
    let entries = read_calendar(CALENDAR).unwrap();
    match &entries[1].start {
        Some(CalendarTime::Floating(time)) => assert_eq!(*time, clock(16, 12, 0)),
        other => panic!("{:?}", other),
    }
    match &entries[1].end {
        Some(CalendarTime::Floating(time)) => assert_eq!(*time, clock(16, 13, 0)),
        other => panic!("{:?}", other),
    }
}

#[test]
fn time_with_zone_is_read_as_wall_clock_and_zone() {
    let entries = read_calendar(CALENDAR).unwrap();
    match &entries[2].start {
        Some(CalendarTime::WithTimezone { date_time, tzid }) => {
            assert_eq!(*date_time, clock(16, 9, 0));
            assert_eq!(tzid, "Europe/Berlin");
        }
        other => panic!("{:?}", other),
    }
    assert_eq!(
        entries[2].end.as_ref().and_then(date_perhaps_time_to_utc),
        Some(at(1_657_990_800))
    );
}

#[test]
fn whole_day_is_read_as_a_date() {
    let entries = read_calendar(CALENDAR).unwrap();
    match &entries[3].start {
        Some(CalendarTime::Date(date)) => {
            assert_eq!(*date, CivilDate { year: 2022, month: 7, day: 17 })
        }
        other => panic!("{:?}", other),
    }
    match &entries[3].end {
        Some(CalendarTime::Date(date)) => {
            assert_eq!(*date, CivilDate { year: 2022, month: 7, day: 18 })
        }
        other => panic!("{:?}", other),
    }
}

#[test]
fn missing_parts_of_an_event_are_left_out() {
    let entries = read_calendar(CALENDAR).unwrap();
    assert!(entries[4].summary.is_none());
    assert!(entries[4].start.is_some());
    assert!(entries[4].end.is_none());
}

#[test]
fn event_in_progress_is_found_in_the_text_of_a_calendar() {
    let entries = read_calendar(CALENDAR).unwrap();
    // 2022-07-16T14:20:00Z
    assert_eq!(title_at(&entries, 1_657_981_200), Some("Standup".to_string()));
    // 2022-07-16T12:30:00Z: lunch before the workshop, in the order of the file
    assert_eq!(title_at(&entries, 1_657_974_600), Some("Lunch".to_string()));
    // 2022-07-16T09:00:00Z
    assert_eq!(title_at(&entries, 1_657_962_000), Some("Workshop".to_string()));
    // 2022-07-17T00:00:00Z and the last second of the day
    assert_eq!(title_at(&entries, 1_658_016_000), Some("Holiday".to_string()));
    assert_eq!(title_at(&entries, 1_658_102_399), Some("Holiday".to_string()));
    // 2022-07-18T00:00:00Z
    assert_eq!(title_at(&entries, 1_658_102_400), None);
    // 2022-07-19T10:30:00Z: the event without end and summary
    assert_eq!(title_at(&entries, 1_658_226_600), None);
}

#[test]
fn calendar_without_events_has_no_entries() {
    let entries = read_calendar("BEGIN:VCALENDAR\r\nVERSION:2.0\r\nEND:VCALENDAR\r\n").unwrap();
    assert!(entries.is_empty());
}

#[test]
fn text_that_is_no_calendar_gives_the_reason() {
    assert!(read_calendar("BEGIN:VCALENDAR\r\nBEGIN:VEVENT\r\nEND:VCALENDAR\r\n").is_err());
    assert!(read_calendar("BEGIN:VEVENT\r\nSUMMARY:x\r\n").is_err());
}

#[test]
fn events_among_components_keep_their_order() {
    let entry = |summary: &str| CalendarEvent {
        summary: Some(summary.to_string()),
        start: None,
        end: None,
    };
    let components = vec![None, Some(entry("a")), None, None, Some(entry("b")), Some(entry("c"))];
    assert_eq!(
        summaries(&events_among(&components)),
        vec![Some("a".to_string()), Some("b".to_string()), Some("c".to_string())]
    );
    assert!(events_among(&vec![None, None]).is_empty());
    assert!(events_among(&vec![]).is_empty());
}
