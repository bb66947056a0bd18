//! The calendar events query: the request and its parameters, the
//! response, and one event.
//!
//! The request is assembled entirely from plain text here, with the
//! parameter list and the final address pinned down exactly; only the
//! last step, reading the assembled text as a `url::Url`, leans on the
//! `url` crate.

use vstd::prelude::*;
use crate::dates::PlainDateTime;
use crate::error::RequestError;
use crate::model::GCalTimestamp;
use crate::text::{bool_string, bool_text, clone_opt_string, pad2, pad4};
use crate::text::{push_pad2, push_pad4};

verus! {

/// A date-time in UTC as the query parameters want it:
/// `YYYY-MM-DDThh:mm:ssZ`.
pub open spec fn utc_text(t: PlainDateTime) -> Seq<char> {
    pad4(t.year as int) + "-"@ + pad2(t.month as int) + "-"@ + pad2(t.day as int) + "T"@ + pad2(
        t.hour as int,
    ) + ":"@ + pad2(t.minute as int) + ":"@ + pad2(t.second as int) + "Z"@
}

/// Renders a UTC date-time for the query parameters.
pub fn format_utc(t: &PlainDateTime) -> (r: String)
    requires
        0 <= t.year <= 9999,
        t.field_ranges(),
    ensures
        r@ == utc_text(*t),
{
    let mut s = String::new();
    push_pad4(&mut s, t.year);
    s.append("-");
    push_pad2(&mut s, t.month);
    s.append("-");
    push_pad2(&mut s, t.day);
    s.append("T");
    push_pad2(&mut s, t.hour);
    s.append(":");
    push_pad2(&mut s, t.minute);
    s.append(":");
    push_pad2(&mut s, t.second);
    s.append("Z");
    proof {
        assert(s@ =~= utc_text(*t));
    }
    s
}

/// The view of an optional text.
pub open spec fn opt_view(o: Option<String>) -> Option<Seq<char>> {
    match o {
        Some(s) => Some(s@),
        None => None,
    }
}

/// The view of an optional flag, rendered as `"true"` or `"false"`.
pub open spec fn opt_bool_view(o: Option<bool>) -> Option<Seq<char>> {
    match o {
        Some(b) => Some(bool_text(b)),
        None => None,
    }
}

/// A parameter entry for a set optional value, nothing for an unset one.
pub open spec fn opt_pair(key: Seq<char>, v: Option<Seq<char>>) -> Seq<(Seq<char>, Seq<char>)> {
    match v {
        Some(t) => seq![(key, t)],
        None => Seq::empty(),
    }
}

/// The views of a list of key-value texts.
pub open spec fn view_pairs(ps: Seq<(String, String)>) -> Seq<(Seq<char>, Seq<char>)> {
    ps.map_values(|p: (String, String)| (p.0@, p.1@))
}

/// The first `n` parameters joined as `k=v`, separated by `&`.
pub open spec fn join_params(ps: Seq<(Seq<char>, Seq<char>)>, n: int) -> Seq<char>
    decreases n,
{
    if n <= 0 {
        Seq::empty()
    } else {
        join_params(ps, n - 1) + (if n > 1 {
            "&"@
        } else {
            Seq::<char>::empty()
        }) + ps[n - 1].0 + "="@ + ps[n - 1].1
    }
}

/// The query suffix: empty for no parameters, otherwise `?` and the
/// joined parameters.
pub open spec fn query_text(ps: Seq<(Seq<char>, Seq<char>)>) -> Seq<char> {
    if ps.len() == 0 {
        Seq::empty()
    } else {
        "?"@ + join_params(ps, ps.len() as int)
    }
}

/// A query for the events of one calendar whose start falls in a time
/// window.  Unset fields are left out of the request.
#[derive(Debug)]
pub struct EventsListRequest {
    pub calendar_id: String,
    pub max_results: Option<usize>,
    pub order_by: Option<String>,
    pub page_token: Option<String>,
    pub show_deleted: Option<bool>,
    pub single_events: Option<bool>,
    pub time_max: Option<String>,
    pub time_min: Option<String>,
}

impl EventsListRequest {
    /// A query for `calendar_id` with every option unset.
    pub fn new(calendar_id: String) -> (r: Self)
        ensures
            r == (EventsListRequest {
                calendar_id: calendar_id,
                max_results: None,
                order_by: None,
                page_token: None,
                show_deleted: None,
                single_events: None,
                time_max: None,
                time_min: None,
            }),
    {
        EventsListRequest {
            calendar_id,
            max_results: None,
            order_by: None,
            page_token: None,
            show_deleted: None,
            single_events: None,
            time_max: None,
            time_min: None,
        }
    }

    pub fn max_results(self, max_results: usize) -> (r: Self)
        ensures
            r == (EventsListRequest { max_results: Some(max_results), ..self }),
    {
        EventsListRequest { max_results: Some(max_results), ..self }
    }

    pub fn order_by(self, order_by: String) -> (r: Self)
        ensures
            r == (EventsListRequest { order_by: Some(order_by), ..self }),
    {
        EventsListRequest { order_by: Some(order_by), ..self }
    }

    pub fn page_token(self, page_token: String) -> (r: Self)
        ensures
            r == (EventsListRequest { page_token: Some(page_token), ..self }),
    {
        EventsListRequest { page_token: Some(page_token), ..self }
    }

    pub fn show_deleted(self, show_deleted: bool) -> (r: Self)
        ensures
            r == (EventsListRequest { show_deleted: Some(show_deleted), ..self }),
    {
        EventsListRequest { show_deleted: Some(show_deleted), ..self }
    }

    pub fn single_events(self, single_events: bool) -> (r: Self)
        ensures
            r == (EventsListRequest { single_events: Some(single_events), ..self }),
    {
        EventsListRequest { single_events: Some(single_events), ..self }
    }

    /// Sets the exclusive end of the window, given as a date-time already
    /// in UTC.
    pub fn time_max(self, time: &PlainDateTime) -> (r: Self)
        requires
            0 <= time.year <= 9999,
            time.field_ranges(),
        ensures
            r.time_max matches Some(s) && s@ == utc_text(*time),
            r.calendar_id == self.calendar_id,
            r.max_results == self.max_results,
            r.order_by == self.order_by,
            r.page_token == self.page_token,
            r.show_deleted == self.show_deleted,
            r.single_events == self.single_events,
            r.time_min == self.time_min,
    {
        EventsListRequest { time_max: Some(format_utc(time)), ..self }
    }

    /// Sets the inclusive start of the window, given as a date-time
    /// already in UTC.
    pub fn time_min(self, time: &PlainDateTime) -> (r: Self)
        requires
            0 <= time.year <= 9999,
            time.field_ranges(),
        ensures
            r.time_min matches Some(s) && s@ == utc_text(*time),
            r.calendar_id == self.calendar_id,
            r.max_results == self.max_results,
            r.order_by == self.order_by,
            r.page_token == self.page_token,
            r.show_deleted == self.show_deleted,
            r.single_events == self.single_events,
            r.time_max == self.time_max,
    {
        EventsListRequest { time_min: Some(format_utc(time)), ..self }
    }

    /// The request's parameter list, in its fixed order.  The maximum
    /// result count and the ordering are held by the request but sent as
    /// part of no parameter list.
    pub open spec fn spec_params(self) -> Seq<(Seq<char>, Seq<char>)> {
        opt_pair("pageToken"@, opt_view(self.page_token)) + opt_pair(
            "showDeleted"@,
            opt_bool_view(self.show_deleted),
        ) + opt_pair("singleEvents"@, opt_bool_view(self.single_events)) + opt_pair(
            "timeMax"@,
            opt_view(self.time_max),
        ) + opt_pair("timeMin"@, opt_view(self.time_min))
    }

    /// The key-value parameter list of this request.
    pub fn params(&self) -> (r: Vec<(String, String)>)
        ensures
            view_pairs(r@) == self.spec_params(),
    {
        let mut res: Vec<(String, String)> = Vec::new();
        if let Some(v) = &self.page_token {
            res.push((String::from_str("pageToken"), v.clone()));
        }
        if let Some(b) = self.show_deleted {
            res.push((String::from_str("showDeleted"), bool_string(b)));
        }
        if let Some(b) = self.single_events {
            res.push((String::from_str("singleEvents"), bool_string(b)));
        }
        if let Some(v) = &self.time_max {
            res.push((String::from_str("timeMax"), v.clone()));
        }
        if let Some(v) = &self.time_min {
            res.push((String::from_str("timeMin"), v.clone()));
        }
        proof {
            assert(view_pairs(res@) =~= self.spec_params());
        }
        res
    }

    /// The full address text of this request against a base address.
    pub open spec fn spec_url_text(self, base: Seq<char>) -> Seq<char> {
        base + "calendars/"@ + self.calendar_id@ + "/events"@ + query_text(self.spec_params())
    }

    /// Renders the full address text of this request.
    pub fn url_string(&self, base: &str) -> (r: String)
        ensures
            r@ == self.spec_url_text(base@),
    {
        let ps = self.params();
        let mut s = String::new();
        s.append(base);
        s.append("calendars/");
        s.append(self.calendar_id.as_str());
        s.append("/events");
        let ghost head = base@ + "calendars/"@ + self.calendar_id@ + "/events"@;
        if ps.len() > 0 {
            s.append("?");
            let mut i: usize = 0;
            while i < ps.len()
                invariant
                    i <= ps.len(),
                    view_pairs(ps@) == self.spec_params(),
                    s@ == head + "?"@ + join_params(view_pairs(ps@), i as int),
                decreases ps.len() - i,
            {
                if i > 0 {
                    s.append("&");
                }
                s.append(ps[i].0.as_str());
                s.append("=");
                s.append(ps[i].1.as_str());
                proof {
                    assert(view_pairs(ps@)[i as int] == (ps@[i as int].0@, ps@[i as int].1@));
                    assert(s@ =~= head + "?"@ + join_params(view_pairs(ps@), i + 1 as int));
                }
                i = i + 1;
            }
            proof {
                assert(s@ =~= self.spec_url_text(base@));
            }
        } else {
            proof {
                assert(s@ =~= self.spec_url_text(base@));
            }
        }
        s
    }

    /// The request as a `url::Url` against a base address; refused where
    /// the assembled text is no valid URL.
    pub fn to_url(&self, base: &str) -> (r: Result<url::Url, RequestError>)
        ensures
            r matches Err(e) ==> e matches RequestError::UrlParseError(_),
    {
        match parse_url(self.url_string(base).as_str()) {
            Ok(u) => Ok(u),
            Err(e) => Err(RequestError::UrlParseError(e)),
        }
    }
}

/// The `url` crate's parsed URL, declared so values of it can be handed
/// through.
#[verifier::external_type_specification]
#[verifier::external_body]
pub struct ExUrl(url::Url);

/// Relies on `url::Url::parse`; nothing about the parsed value is needed
/// here beyond carrying it to the transport.
#[verifier::external_body]
fn parse_url(s: &str) -> (r: Result<url::Url, url::ParseError>) {
    url::Url::parse(s)
}

/// One calendar event as the events query returns it.
#[derive(Debug)]
pub struct Event {
    pub start: GCalTimestamp,
    pub end: GCalTimestamp,
    pub location: Option<String>,
    pub summary: String,
    pub end_time_unspecified: Option<bool>,
}

impl Clone for Event {
    fn clone(&self) -> (r: Self)
        ensures
            r == *self,
    {
        Event {
            start: self.start.clone(),
            end: self.end.clone(),
            location: clone_opt_string(&self.location),
            summary: self.summary.clone(),
            end_time_unspecified: self.end_time_unspecified,
        }
    }
}

/// One page of the events query's answer.
#[derive(Debug)]
pub struct EventsListResponse {
    pub items: Vec<Event>,
    pub next_page_token: Option<String>,
}

impl EventsListResponse {
    /// The returned events, in the order the query gave them.
    pub fn items(&self) -> (r: &Vec<Event>)
        ensures
            r@ == self.items@,
    {
        &self.items
    }
}

} // verus!
