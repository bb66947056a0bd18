//! Rendering the texts the chat channel sees: the numbered agenda and
//! the reminder message for a found meeting.  Rendering reads a
//! snapshot and mutates nothing.

use vstd::prelude::*;
use crate::agenda::{point_text, Agenda, AgendaPoint};
use crate::dates::PlainDateTime;
use crate::events::Event;
use crate::model::Timestamp;
use crate::text::{dec_text, pad2};
use crate::text::{push_dec, push_pad2};

verus! {

/// The commands the chat offers, already parsed out of the platform's
/// payloads (that parsing belongs to the platform boundary).  Indices
/// are zero-based here; the boundary turns the user's one-based numbers
/// into them.
#[derive(Debug)]
pub enum InteractionCommand {
    Add { title: String },
    Agenda,
    Meetup(bool),
    RemoveOne(usize),
    RemoveMany(Option<usize>, Option<usize>),
}

/// What a meetup command asks the chat platform to do with the meetup
/// role.
#[derive(Clone, Copy, Debug, PartialEq, Eq, Structural)]
pub enum RoleChange {
    Grant,
    Revoke,
    Nothing,
}

/// The rendered line of point `p` at zero-based position `i`: its
/// one-based number, then the point.
pub open spec fn line_text(p: AgendaPoint, i: int) -> Seq<char> {
    dec_text((i + 1) as nat) + ". "@ + point_text(p)
}

/// The first `n` agenda lines, separated by line breaks.
pub open spec fn lines_upto(ps: Seq<AgendaPoint>, n: int) -> Seq<char>
    decreases n,
{
    if n <= 0 {
        Seq::empty()
    } else {
        lines_upto(ps, n - 1) + (if n > 1 {
            "\n"@
        } else {
            Seq::<char>::empty()
        }) + line_text(ps[n - 1], n - 1)
    }
}

/// The rendered agenda: the numbered point list, or a fixed text for an
/// empty document.
pub open spec fn agenda_text(ps: Seq<AgendaPoint>) -> Seq<char> {
    if ps.len() == 0 {
        "Empty agenda"@
    } else {
        lines_upto(ps, ps.len() as int)
    }
}

/// Renders the agenda as the chat shows it: the points numbered from
/// one, one per line.
pub fn get_agenda_string(agenda: &Agenda) -> (r: String)
    ensures
        r@ == agenda_text(agenda.points@),
{
    if agenda.points.len() == 0 {
        String::from_str("Empty agenda")
    } else {
        let mut s = String::new();
        let mut i: usize = 0;
        while i < agenda.points.len()
            invariant
                i <= agenda.points@.len(),
                s@ == lines_upto(agenda.points@, i as int),
            decreases agenda.points@.len() - i,
        {
            if i > 0 {
                s.append("\n");
            }
            push_dec(&mut s, i + 1);
            s.append(". ");
            let line = agenda.points[i].to_string();
            s.append(line.as_str());
            i = i + 1;
            proof {
                assert(s@ =~= lines_upto(agenda.points@, i as int));
            }
        }
        s
    }
}

/// Applies one parsed command and chooses the reply.  `Add` appends a
/// point made of the title, the proposer and the moment; `Agenda`
/// renders the list; the removals reply with the agenda as it stood
/// before removing, whether or not the indices fit (an ill-fitting
/// removal changes nothing); `Meetup` changes nothing here and tells
/// the caller what to do with the role, given whether the request came
/// from a known member and whether that member holds the role already.
pub fn handle_command(
    agenda: &mut Agenda,
    cmd: InteractionCommand,
    adder: String,
    created: PlainDateTime,
    has_member: bool,
    has_role: bool,
) -> (r: (String, RoleChange))
    ensures
        ({
            let ps = old(agenda).points@;
            match cmd {
                InteractionCommand::Add { title } => {
                    &&& final(agenda).points@ == ps.push(
                        (AgendaPoint { title: title, adder: adder, timestamp: created }),
                    )
                    &&& r.0@ == "Added "@ + title@
                    &&& r.1 == RoleChange::Nothing
                },
                InteractionCommand::Agenda => {
                    &&& final(agenda).points@ == ps
                    &&& r.0@ == agenda_text(ps)
                    &&& r.1 == RoleChange::Nothing
                },
                InteractionCommand::RemoveOne(n) => {
                    &&& final(agenda).points@ == (if n < ps.len() {
                        ps.remove(n as int)
                    } else {
                        ps
                    })
                    &&& r.0@ == "Previous agenda was:\n"@ + agenda_text(ps)
                    &&& r.1 == RoleChange::Nothing
                },
                InteractionCommand::RemoveMany(start, end) => ({
                    let n = ps.len() as int;
                    let lo = (match start {
                        Some(l) => l as int,
                        None => 0,
                    });
                    let hi = (match end {
                        Some(u) => u as int,
                        None => n,
                    });
                    &&& final(agenda).points@ == (if lo <= hi <= n {
                        ps.subrange(0, lo) + ps.subrange(hi, n)
                    } else {
                        ps
                    })
                    &&& r.0@ == "Previous agenda was:\n"@ + agenda_text(ps)
                    &&& r.1 == RoleChange::Nothing
                }),
                InteractionCommand::Meetup(enable) => {
                    &&& final(agenda).points@ == ps
                    &&& (!has_member ==> r.0@ == "Missing member"@ && r.1 == RoleChange::Nothing)
                    &&& (has_member && enable && has_role ==> r.0@ == "You already have this role"@
                        && r.1 == RoleChange::Nothing)
                    &&& (has_member && !enable && !has_role ==> r.0@ == "You don't have this role"@
                        && r.1 == RoleChange::Nothing)
                    &&& (has_member && enable && !has_role ==> r.0@ == "ok"@ && r.1
                        == RoleChange::Grant)
                    &&& (has_member && !enable && has_role ==> r.0@ == "ok"@ && r.1
                        == RoleChange::Revoke)
                },
            }
        }),
{
    match cmd {
        InteractionCommand::Add { title } => {
            let mut resp = String::from_str("Added ");
            resp.append(title.as_str());
            agenda.push_write(AgendaPoint { title, adder, timestamp: created });
            (resp, RoleChange::Nothing)
        },
        InteractionCommand::Agenda => (get_agenda_string(agenda), RoleChange::Nothing),
        InteractionCommand::RemoveOne(n) => {
            let mut resp = String::from_str("Previous agenda was:\n");
            let prev = get_agenda_string(agenda);
            resp.append(prev.as_str());
            let _outcome = agenda.remove_one(n);
            (resp, RoleChange::Nothing)
        },
        InteractionCommand::RemoveMany(start, end) => {
            let mut resp = String::from_str("Previous agenda was:\n");
            let prev = get_agenda_string(agenda);
            resp.append(prev.as_str());
            let _outcome = agenda.remove_many(start, end);
            (resp, RoleChange::Nothing)
        },
        InteractionCommand::Meetup(enable) => {
            if !has_member {
                (String::from_str("Missing member"), RoleChange::Nothing)
            } else if enable && has_role {
                (String::from_str("You already have this role"), RoleChange::Nothing)
            } else if !enable && !has_role {
                (String::from_str("You don't have this role"), RoleChange::Nothing)
            } else if enable {
                (String::from_str("ok"), RoleChange::Grant)
            } else {
                (String::from_str("ok"), RoleChange::Revoke)
            }
        },
    }
}

/// The rendered start time of a meeting: `hh:mm` for a start that reads
/// as a date-time, nothing otherwise.
pub open spec fn start_time_text(e: Event) -> Seq<char> {
    match Timestamp::spec_parse(e.start) {
        Ok(t) => match t.spec_date_time() {
            Some(dt) => pad2(dt.hour as int) + ":"@ + pad2(dt.minute as int),
            None => Seq::empty(),
        },
        Err(_) => Seq::empty(),
    }
}

/// The rendered location part of a meeting: nothing without a location.
pub open spec fn location_text(e: Event) -> Seq<char> {
    match e.location {
        Some(l) => " Location: "@ + l@ + "."@,
        None => Seq::empty(),
    }
}

/// The whole reminder message for a found meeting over an agenda
/// snapshot.
pub open spec fn meeting_text(e: Event, ps: Seq<AgendaPoint>) -> Seq<char> {
    "Meeting at "@ + start_time_text(e) + "!"@ + location_text(e) + "\n"@ + agenda_text(ps)
}

/// Renders the reminder message: the meeting's start time, its location
/// where it has one, and the numbered agenda snapshot.
pub fn get_meeting_string(event: &Event, agenda: &Agenda) -> (r: String)
    ensures
        r@ == meeting_text(*event, agenda.points@),
{
    let mut s = String::from_str("Meeting at ");
    match Timestamp::try_from(&event.start) {
        Ok(t) => match t.date_time() {
            Some(dt) => {
                push_pad2(&mut s, dt.hour);
                s.append(":");
                push_pad2(&mut s, dt.minute);
            },
            None => {},
        },
        Err(_) => {},
    }
    s.append("!");
    if let Some(l) = &event.location {
        s.append(" Location: ");
        s.append(l.as_str());
        s.append(".");
    }
    s.append("\n");
    let a = get_agenda_string(agenda);
    s.append(a.as_str());
    proof {
        assert(s@ =~= meeting_text(*event, agenda.points@));
    }
    s
}

} // verus!
