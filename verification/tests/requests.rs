//! Building the events query: parameters, the address text, and the
//! window formatting.

use kodapa::calendar::build_events_request;
use kodapa::dates::PlainDateTime;
use kodapa::error::RequestError;
use kodapa::events::{format_utc, EventsListRequest};

fn dt(year: i32, month: u8, day: u8, hour: u8, minute: u8, second: u8) -> PlainDateTime {
    PlainDateTime { year, month, day, hour, minute, second }
}

#[test]
fn new_request_has_everything_unset() {
    let req = EventsListRequest::new("cal".to_string());
    assert_eq!(req.calendar_id, "cal");
    assert!(req.max_results.is_none());
    assert!(req.order_by.is_none());
    assert!(req.page_token.is_none());
    assert!(req.show_deleted.is_none());
    assert!(req.single_events.is_none());
    assert!(req.time_max.is_none());
    assert!(req.time_min.is_none());
    assert!(req.params().is_empty());
}

#[test]
fn format_utc_pads_every_field() {
    assert_eq!(format_utc(&dt(2024, 3, 4, 9, 5, 0)), "2024-03-04T09:05:00Z");
    assert_eq!(format_utc(&dt(987, 12, 31, 23, 59, 59)), "0987-12-31T23:59:59Z");
}

#[test]
fn params_follow_the_fixed_order_and_skip_unset_fields() {
    let req = EventsListRequest::new("cal".to_string())
        .max_results(50)
        .order_by("startTime".to_string())
        .single_events(true)
        .time_min(&dt(2024, 3, 4, 10, 15, 0))
        .time_max(&dt(2024, 3, 4, 11, 15, 0));
    let params = req.params();
    // The result bound and the ordering are held but never sent.
    assert_eq!(
        params,
        vec![
            ("singleEvents".to_string(), "true".to_string()),
            ("timeMax".to_string(), "2024-03-04T11:15:00Z".to_string()),
            ("timeMin".to_string(), "2024-03-04T10:15:00Z".to_string()),
        ]
    );
}

#[test]
fn params_render_flags_and_tokens() {
    let req = EventsListRequest::new("cal".to_string())
        .page_token("next-page".to_string())
        .show_deleted(false);
    assert_eq!(
        req.params(),
        vec![
            ("pageToken".to_string(), "next-page".to_string()),
            ("showDeleted".to_string(), "false".to_string()),
        ]
    );
}

#[test]
fn url_text_without_parameters_has_no_query() {
    let req = EventsListRequest::new("abc@group.example".to_string());
    assert_eq!(
        req.url_string("https://calendar.example/v3/"),
        "https://calendar.example/v3/calendars/abc@group.example/events"
    );
}

#[test]
fn url_text_joins_parameters() {
    let req = EventsListRequest::new("cal".to_string())
        .single_events(true)
        .time_min(&dt(2024, 3, 4, 10, 15, 0));
    assert_eq!(
        req.url_string("https://calendar.example/v3/"),
        "https://calendar.example/v3/calendars/cal/events?singleEvents=true&timeMin=2024-03-04T10:15:00Z"
    );
}

#[test]
fn to_url_accepts_a_real_address() {
    let req = EventsListRequest::new("cal".to_string()).single_events(true);
    let url = req.to_url("https://calendar.example/v3/").expect("should parse");
    assert_eq!(url.as_str(), "https://calendar.example/v3/calendars/cal/events?singleEvents=true");
}

#[test]
fn to_url_refuses_a_baseless_address() {
    let req = EventsListRequest::new("cal".to_string());
    match req.to_url("") {
        Err(RequestError::UrlParseError(_)) => {},
        Ok(_) => panic!("an empty base is no URL"),
    }
}

#[test]
fn window_request_converts_the_window_to_utc() {
    // 11:15 local at +01:00, one hour of lookahead.
    let req = build_events_request("cal".to_string(), &dt(2024, 3, 4, 11, 15, 0), 60, 60)
        .expect("window should build");
    assert_eq!(req.calendar_id, "cal");
    assert_eq!(req.max_results, Some(50));
    assert_eq!(req.order_by.as_deref(), Some("startTime"));
    assert_eq!(req.single_events, Some(true));
    assert_eq!(req.time_min.as_deref(), Some("2024-03-04T10:15:00Z"));
    assert_eq!(req.time_max.as_deref(), Some("2024-03-04T11:15:00Z"));
}

#[test]
fn window_request_carries_minutes_across_midnight() {
    // 23:30 local, UTC zone, one hour of lookahead: the end is the next
    // day.
    let req = build_events_request("cal".to_string(), &dt(2024, 2, 28, 23, 30, 0), 0, 60)
        .expect("window should build");
    assert_eq!(req.time_min.as_deref(), Some("2024-02-28T23:30:00Z"));
    assert_eq!(req.time_max.as_deref(), Some("2024-02-29T00:30:00Z"));
}

#[test]
fn window_request_refuses_an_unreadable_date() {
    assert!(build_events_request("cal".to_string(), &dt(2024, 2, 30, 12, 0, 0), 0, 60).is_none());
}
