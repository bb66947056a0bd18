//! The broadcast bus's delivery rules, and the command handling.

use kodapa::agenda::Agenda;
use kodapa::dates::PlainDateTime;
use kodapa::discord::{handle_command, InteractionCommand, RoleChange};
use kodapa::events::Event;
use kodapa::kodapa::{get_reminder_event, Event as BusEvent, EventBus};
use kodapa::model::GCalTimestamp;

fn meeting(start: &str) -> Event {
    Event {
        start: GCalTimestamp { date: None, date_time: Some(start.to_string()) },
        end: GCalTimestamp { date: None, date_time: Some(start.to_string()) },
        location: None,
        summary: "Styrelsem\u{f6}te".to_string(),
        end_time_unspecified: None,
    }
}

fn reminder(start: &str) -> BusEvent {
    get_reminder_event(meeting(start))
}

fn start_of(e: &BusEvent) -> String {
    match e {
        BusEvent::Reminder { event } => event.start.date_time.clone().unwrap(),
    }
}

fn now() -> PlainDateTime {
    PlainDateTime { year: 2024, month: 3, day: 4, hour: 11, minute: 15, second: 0 }
}

#[test]
fn every_subscriber_sees_events_in_publish_order() {
    let mut bus = EventBus::new(4);
    let a = bus.subscribe();
    let b = bus.subscribe();
    bus.publish(&reminder("2024-03-04T12:00:00+01:00"));
    bus.publish(&reminder("2024-03-11T12:00:00+01:00"));
    for h in [a, b] {
        assert_eq!(start_of(&bus.try_recv(h).unwrap()), "2024-03-04T12:00:00+01:00");
        assert_eq!(start_of(&bus.try_recv(h).unwrap()), "2024-03-11T12:00:00+01:00");
        assert!(bus.try_recv(h).is_none());
    }
}

#[test]
fn publishing_with_no_subscriber_drops_the_event() {
    let mut bus = EventBus::new(1);
    bus.publish(&reminder("2024-03-04T12:00:00+01:00"));
    let h = bus.subscribe();
    // No replay: the late subscriber missed it.
    assert!(bus.try_recv(h).is_none());
}

#[test]
fn a_full_queue_drops_its_oldest_entry() {
    let mut bus = EventBus::new(2);
    let h = bus.subscribe();
    bus.publish(&reminder("2024-03-04T12:00:00+01:00"));
    bus.publish(&reminder("2024-03-11T12:00:00+01:00"));
    bus.publish(&reminder("2024-03-18T12:00:00+01:00"));
    assert_eq!(start_of(&bus.try_recv(h).unwrap()), "2024-03-11T12:00:00+01:00");
    assert_eq!(start_of(&bus.try_recv(h).unwrap()), "2024-03-18T12:00:00+01:00");
    assert!(bus.try_recv(h).is_none());
}

#[test]
fn a_slow_subscriber_does_not_hold_up_a_fast_one() {
    let mut bus = EventBus::new(1);
    let slow = bus.subscribe();
    let fast = bus.subscribe();
    bus.publish(&reminder("2024-03-04T12:00:00+01:00"));
    assert_eq!(start_of(&bus.try_recv(fast).unwrap()), "2024-03-04T12:00:00+01:00");
    bus.publish(&reminder("2024-03-11T12:00:00+01:00"));
    assert_eq!(start_of(&bus.try_recv(fast).unwrap()), "2024-03-11T12:00:00+01:00");
    // The slow queue kept only the newest.
    assert_eq!(start_of(&bus.try_recv(slow).unwrap()), "2024-03-11T12:00:00+01:00");
    assert!(bus.try_recv(slow).is_none());
}

#[test]
fn add_command_appends_and_confirms() {
    let mut agenda = Agenda::new();
    let (reply, role) = handle_command(
        &mut agenda,
        InteractionCommand::Add { title: "Budget".to_string() },
        "Alice".to_string(),
        now(),
        true,
        false,
    );
    assert_eq!(reply, "Added Budget");
    assert_eq!(role, RoleChange::Nothing);
    let points = agenda.read();
    assert_eq!(points.len(), 1);
    assert_eq!(points[0].title, "Budget");
    assert_eq!(points[0].adder, "Alice");
}

#[test]
fn agenda_command_renders_without_mutating() {
    let mut agenda = Agenda::new();
    let (reply, _) = handle_command(
        &mut agenda,
        InteractionCommand::Agenda,
        "Alice".to_string(),
        now(),
        false,
        false,
    );
    assert_eq!(reply, "Empty agenda");
    assert_eq!(agenda.read().len(), 0);
}

#[test]
fn remove_commands_reply_with_the_previous_agenda() {
    let mut agenda = Agenda::new();
    handle_command(
        &mut agenda,
        InteractionCommand::Add { title: "Budget".to_string() },
        "Alice".to_string(),
        now(),
        true,
        false,
    );
    let (reply, _) = handle_command(
        &mut agenda,
        InteractionCommand::RemoveOne(0),
        "Alice".to_string(),
        now(),
        true,
        false,
    );
    assert_eq!(reply, "Previous agenda was:\n1. Alice: Budget (March 04 -- w10-1)");
    assert_eq!(agenda.read().len(), 0);
    // An ill-fitting removal still shows the previous (now empty) list.
    let (reply, _) = handle_command(
        &mut agenda,
        InteractionCommand::RemoveMany(Some(3), Some(7)),
        "Alice".to_string(),
        now(),
        true,
        false,
    );
    assert_eq!(reply, "Previous agenda was:\nEmpty agenda");
}

#[test]
fn meetup_command_decides_the_role_change() {
    let mut agenda = Agenda::new();
    let cases: Vec<(bool, bool, bool, &str, RoleChange)> = vec![
        (false, true, false, "Missing member", RoleChange::Nothing),
        (true, true, true, "You already have this role", RoleChange::Nothing),
        (true, false, false, "You don't have this role", RoleChange::Nothing),
        (true, true, false, "ok", RoleChange::Grant),
        (true, false, true, "ok", RoleChange::Revoke),
    ];
    for (has_member, enable, has_role, reply, change) in cases {
        let (r, c) = handle_command(
            &mut agenda,
            InteractionCommand::Meetup(enable),
            "Alice".to_string(),
            now(),
            has_member,
            has_role,
        );
        assert_eq!(r, reply);
        assert_eq!(c, change);
        assert_eq!(agenda.read().len(), 0);
    }
}
