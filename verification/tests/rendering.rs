//! The rendered chat texts: the numbered agenda and the reminder
//! message.

use kodapa::agenda::{Agenda, AgendaPoint};
use kodapa::dates::PlainDateTime;
use kodapa::discord::{get_agenda_string, get_meeting_string};
use kodapa::events::Event;
use kodapa::model::GCalTimestamp;

fn dt(year: i32, month: u8, day: u8) -> PlainDateTime {
    PlainDateTime { year, month, day, hour: 10, minute: 0, second: 0 }
}

fn point(title: &str, adder: &str) -> AgendaPoint {
    AgendaPoint { title: title.to_string(), adder: adder.to_string(), timestamp: dt(2024, 3, 4) }
}

fn meeting(start: Option<&str>, location: Option<&str>) -> Event {
    Event {
        start: GCalTimestamp { date: None, date_time: start.map(|s| s.to_string()) },
        end: GCalTimestamp { date: None, date_time: start.map(|s| s.to_string()) },
        location: location.map(|s| s.to_string()),
        summary: "Styrelsem\u{f6}te".to_string(),
        end_time_unspecified: None,
    }
}

#[test]
fn empty_agenda_renders_the_fixed_text() {
    let agenda = Agenda::new();
    assert_eq!(get_agenda_string(&agenda), "Empty agenda");
}

#[test]
fn agenda_lines_are_numbered_from_one() {
    let mut agenda = Agenda::new();
    agenda.push_write(point("Budget", "Alice"));
    agenda.push_write(point("Roof", "Bob"));
    assert_eq!(
        get_agenda_string(&agenda),
        "1. Alice: Budget (March 04 -- w10-1)\n2. Bob: Roof (March 04 -- w10-1)"
    );
}

#[test]
fn agenda_numbers_grow_past_nine() {
    let mut agenda = Agenda::new();
    let mut i = 0;
    while i < 11 {
        agenda.push_write(point("P", "x"));
        i += 1;
    }
    let text = get_agenda_string(&agenda);
    let lines: Vec<&str> = text.split('\n').collect();
    assert_eq!(lines.len(), 11);
    assert!(lines[9].starts_with("10. "));
    assert!(lines[10].starts_with("11. "));
}

#[test]
fn meeting_message_shows_time_location_and_agenda() {
    let mut agenda = Agenda::new();
    agenda.push_write(point("Budget", "Alice"));
    let event = meeting(Some("2024-03-04T12:00:00+01:00"), Some("Room 1"));
    assert_eq!(
        get_meeting_string(&event, &agenda),
        "Meeting at 12:00! Location: Room 1.\n1. Alice: Budget (March 04 -- w10-1)"
    );
}

#[test]
fn meeting_message_without_location_or_points() {
    let agenda = Agenda::new();
    let event = meeting(Some("2024-03-04T09:05:00+01:00"), None);
    assert_eq!(get_meeting_string(&event, &agenda), "Meeting at 09:05!\nEmpty agenda");
}

#[test]
fn meeting_message_with_unreadable_start_has_no_time() {
    let agenda = Agenda::new();
    let event = meeting(Some("sometime"), None);
    assert_eq!(get_meeting_string(&event, &agenda), "Meeting at !\nEmpty agenda");
}

#[test]
fn meeting_time_is_shown_in_the_event_s_own_offset() {
    let agenda = Agenda::new();
    let event = meeting(Some("2024-03-04T23:45:00-05:00"), None);
    assert_eq!(get_meeting_string(&event, &agenda), "Meeting at 23:45!\nEmpty agenda");
}
