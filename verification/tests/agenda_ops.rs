//! The agenda document: appends, removals, snapshots and rendering.

use kodapa::agenda::{Agenda, AgendaPoint};
use kodapa::dates::PlainDateTime;
use kodapa::error::AgendaError;
use kodapa::kodapa::handle_agenda;

fn dt(year: i32, month: u8, day: u8, hour: u8, minute: u8) -> PlainDateTime {
    PlainDateTime { year, month, day, hour, minute, second: 0 }
}

fn point(title: &str, adder: &str) -> AgendaPoint {
    AgendaPoint {
        title: title.to_string(),
        adder: adder.to_string(),
        timestamp: dt(2024, 3, 4, 11, 0),
    }
}

#[test]
fn empty_agenda_starts_empty() {
    let agenda = Agenda::new();
    assert_eq!(agenda.read().len(), 0);
}

#[test]
fn append_then_read_ends_with_the_point() {
    let mut agenda = Agenda::new();
    agenda.push_write(point("Budget", "Alice"));
    agenda.push_write(point("Roof", "Bob"));
    let points = agenda.read();
    assert_eq!(points.len(), 2);
    assert_eq!(points[1].title, "Roof");
    assert_eq!(points[1].adder, "Bob");
    assert_eq!(points[0].title, "Budget");
}

#[test]
fn scenario_budget_point_lifecycle() {
    let mut agenda = Agenda::new();
    agenda.push_write(point("Budget", "Alice"));
    let points = agenda.read();
    assert_eq!(points.len(), 1);
    assert_eq!(points[0].title, "Budget");
    assert_eq!(points[0].adder, "Alice");
    assert_eq!(agenda.remove_one(0), Ok(()));
    assert_eq!(agenda.read().len(), 0);
    assert_eq!(agenda.remove_one(0), Err(AgendaError::OutOfBounds));
}

#[test]
fn remove_one_out_of_bounds_mutates_nothing() {
    let mut agenda = Agenda::new();
    agenda.push_write(point("Budget", "Alice"));
    agenda.push_write(point("Roof", "Bob"));
    assert_eq!(agenda.remove_one(2), Err(AgendaError::OutOfBounds));
    assert_eq!(agenda.remove_one(17), Err(AgendaError::OutOfBounds));
    assert_eq!(agenda.read().len(), 2);
}

#[test]
fn remove_one_omits_exactly_that_point() {
    let mut agenda = Agenda::new();
    agenda.push_write(point("A", "x"));
    agenda.push_write(point("B", "x"));
    agenda.push_write(point("C", "x"));
    assert_eq!(agenda.remove_one(1), Ok(()));
    let points = agenda.read();
    assert_eq!(points.len(), 2);
    assert_eq!(points[0].title, "A");
    assert_eq!(points[1].title, "C");
}

#[test]
fn remove_many_empty_span_changes_nothing() {
    let mut agenda = Agenda::new();
    agenda.push_write(point("A", "x"));
    agenda.push_write(point("B", "x"));
    assert_eq!(agenda.remove_many(Some(1), Some(1)), Ok(()));
    let points = agenda.read();
    assert_eq!(points.len(), 2);
    assert_eq!(points[0].title, "A");
    assert_eq!(points[1].title, "B");
}

#[test]
fn remove_many_full_span_empties() {
    let mut agenda = Agenda::new();
    agenda.push_write(point("A", "x"));
    agenda.push_write(point("B", "x"));
    agenda.push_write(point("C", "x"));
    assert_eq!(agenda.remove_many(None, None), Ok(()));
    assert_eq!(agenda.read().len(), 0);
}

#[test]
fn remove_many_middle_span_shifts_the_rest_down() {
    let mut agenda = Agenda::new();
    agenda.push_write(point("A", "x"));
    agenda.push_write(point("B", "x"));
    agenda.push_write(point("C", "x"));
    agenda.push_write(point("D", "x"));
    assert_eq!(agenda.remove_many(Some(1), Some(3)), Ok(()));
    let points = agenda.read();
    assert_eq!(points.len(), 2);
    assert_eq!(points[0].title, "A");
    assert_eq!(points[1].title, "D");
}

#[test]
fn remove_many_bad_span_is_refused() {
    let mut agenda = Agenda::new();
    agenda.push_write(point("A", "x"));
    assert_eq!(agenda.remove_many(Some(0), Some(2)), Err(AgendaError::InvalidRange));
    assert_eq!(agenda.remove_many(Some(1), Some(0)), Err(AgendaError::InvalidRange));
    assert_eq!(agenda.read().len(), 1);
}

#[test]
fn clear_empties_the_document() {
    let mut agenda = Agenda::new();
    agenda.push_write(point("A", "x"));
    agenda.clear();
    assert_eq!(agenda.read().len(), 0);
}

#[test]
fn batch_ingest_keeps_every_point_in_arrival_order() {
    let mut agenda = Agenda::new();
    agenda.push_write(point("Standing", "x"));
    let batch = vec![point("P1", "a"), point("P2", "b"), point("P3", "c"), point("P4", "d")];
    handle_agenda(&mut agenda, batch);
    let points = agenda.read();
    assert_eq!(points.len(), 5);
    assert_eq!(points[0].title, "Standing");
    assert_eq!(points[1].title, "P1");
    assert_eq!(points[2].title, "P2");
    assert_eq!(points[3].title, "P3");
    assert_eq!(points[4].title, "P4");
}

#[test]
fn point_renders_with_the_date_text() {
    let p = point("Budget", "Alice");
    assert_eq!(p.to_string(), "Alice: Budget (March 04 -- w10-1)");
}

#[test]
fn agenda_renders_its_own_lines() {
    let mut agenda = Agenda::new();
    assert_eq!(agenda.to_string(), "Empty agenda");
    agenda.push_write(point("Budget", "Alice"));
    agenda.push_write(point("Roof", "Bob"));
    assert_eq!(
        agenda.to_string(),
        "Alice: Budget (March 04 -- w10-1)\nBob: Roof (March 04 -- w10-1)"
    );
}
