//! The shared agenda document: an ordered list of points, mutated only
//! through the operations here.  Every operation either applies in full
//! or leaves the document untouched, so a reader always sees a complete
//! pre- or post-mutation list.

use vstd::prelude::*;
use crate::dates::{fmt_point_date, point_date_text, PlainDateTime};
use crate::error::AgendaError;

verus! {

/// The rendered line of one point: proposer, title, and the date text,
/// as `adder: title (date)`.
pub open spec fn point_text(p: AgendaPoint) -> Seq<char> {
    p.adder@ + ": "@ + p.title@ + " ("@ + point_date_text(p.timestamp.spec_date()) + ")"@
}

/// One entry on the agenda: what was proposed, by whom, and when.
/// Immutable once created; entries are addressed by position only.
#[derive(Debug)]
pub struct AgendaPoint {
    pub title: String,
    pub adder: String,
    pub timestamp: PlainDateTime,
}

impl Clone for AgendaPoint {
    fn clone(&self) -> (r: Self)
        ensures
            r == *self,
    {
        AgendaPoint {
            title: self.title.clone(),
            adder: self.adder.clone(),
            timestamp: self.timestamp,
        }
    }
}

impl AgendaPoint {
    /// Renders this point the way messages show it.
    pub fn to_string(&self) -> (r: String)
        ensures
            r@ == point_text(*self),
    {
        let mut s = String::new();
        s.append(self.adder.as_str());
        s.append(": ");
        s.append(self.title.as_str());
        s.append(" (");
        let d = fmt_point_date(&self.timestamp.date());
        s.append(d.as_str());
        s.append(")");
        proof {
            assert(s@ =~= point_text(*self));
        }
        s
    }
}

/// The first `n` point lines, separated by line breaks.
pub open spec fn point_lines_upto(ps: Seq<AgendaPoint>, n: int) -> Seq<char>
    decreases n,
{
    if n <= 0 {
        Seq::empty()
    } else {
        point_lines_upto(ps, n - 1) + (if n > 1 {
            "\n"@
        } else {
            Seq::<char>::empty()
        }) + point_text(ps[n - 1])
    }
}

/// The document rendered on its own: one line per point, or a fixed
/// text for an empty document.
pub open spec fn agenda_display_text(ps: Seq<AgendaPoint>) -> Seq<char> {
    if ps.len() == 0 {
        "Empty agenda"@
    } else {
        point_lines_upto(ps, ps.len() as int)
    }
}

/// The agenda document: the points in display order.
#[derive(Debug)]
pub struct Agenda {
    pub points: Vec<AgendaPoint>,
}

impl Agenda {
    /// A fresh, empty agenda (what a missing stored document means).
    pub fn new() -> (r: Self)
        ensures
            r.points@ == Seq::<AgendaPoint>::empty(),
    {
        Agenda { points: Vec::new() }
    }

    /// A full, consistent snapshot of the document.
    pub fn read(&self) -> (r: Vec<AgendaPoint>)
        ensures
            r@ == self.points@,
    {
        let mut r: Vec<AgendaPoint> = Vec::new();
        let mut i: usize = 0;
        while i < self.points.len()
            invariant
                i <= self.points.len(),
                r@ == self.points@.subrange(0, i as int),
            decreases self.points.len() - i,
        {
            r.push(self.points[i].clone());
            i = i + 1;
            proof {
                assert(r@ =~= self.points@.subrange(0, i as int));
            }
        }
        proof {
            assert(r@ =~= self.points@);
        }
        r
    }

    /// Appends a point at the end of the document.
    pub fn push_write(&mut self, point: AgendaPoint)
        ensures
            final(self).points@ == old(self).points@.push(point),
    {
        self.points.push(point);
    }

    /// Removes the point at `idx`; out of range is refused and mutates
    /// nothing.
    pub fn remove_one(&mut self, idx: usize) -> (r: Result<(), AgendaError>)
        ensures
            match r {
                Ok(()) => idx < old(self).points@.len()
                    && final(self).points@ == old(self).points@.remove(idx as int),
                Err(e) => e == AgendaError::OutOfBounds
                    && idx >= old(self).points@.len()
                    && final(self).points@ == old(self).points@,
            },
    {
        if idx >= self.points.len() {
            return Err(AgendaError::OutOfBounds);
        }
        self.points.remove(idx);
        Ok(())
    }

    /// Removes the contiguous span `[start, end)`; a missing bound means
    /// the corresponding end of the list.  A span that does not fit the
    /// current list is refused and mutates nothing.
    pub fn remove_many(&mut self, start: Option<usize>, end: Option<usize>) -> (r: Result<
        (),
        AgendaError,
    >)
        ensures
            ({
                let n = old(self).points@.len() as int;
                let lo = (match start {
                    Some(l) => l as int,
                    None => 0,
                });
                let hi = (match end {
                    Some(u) => u as int,
                    None => n,
                });
                let kept = old(self).points@.subrange(0, lo) + old(self).points@.subrange(hi, n);
                match r {
                    Ok(()) => lo <= hi <= n && final(self).points@ == kept,
                    Err(e) => e == AgendaError::InvalidRange && !(lo <= hi <= n)
                        && final(self).points@ == old(self).points@,
                }
            }),
    {
        let len = self.points.len();
        let lo = (match start {
            Some(l) => l,
            None => 0,
        });
        let hi = (match end {
            Some(u) => u,
            None => len,
        });
        if lo > hi || hi > len {
            return Err(AgendaError::InvalidRange);
        }
        let count = hi - lo;
        let mut k: usize = 0;
        while k < count
            invariant
                lo <= hi <= len,
                len == old(self).points@.len(),
                count == hi - lo,
                k <= count,
                self.points@ == old(self).points@.subrange(0, lo as int) + old(self).points@
                    .subrange(lo + k as int, len as int),
            decreases count - k,
        {
            proof {
                assert(self.points@.len() == lo + (len - lo - k));
            }
            self.points.remove(lo);
            k = k + 1;
            proof {
                assert(self.points@ =~= old(self).points@.subrange(0, lo as int) + old(self)
                    .points@.subrange(lo + k as int, len as int));
            }
        }
        proof {
            assert(self.points@ =~= old(self).points@.subrange(0, lo as int) + old(self).points@
                .subrange(hi as int, len as int));
        }
        Ok(())
    }

    /// Renders the document on its own, one line per point.
    pub fn to_string(&self) -> (r: String)
        ensures
            r@ == agenda_display_text(self.points@),
    {
        if self.points.len() == 0 {
            String::from_str("Empty agenda")
        } else {
            let mut s = String::new();
            let mut i: usize = 0;
            while i < self.points.len()
                invariant
                    i <= self.points@.len(),
                    s@ == point_lines_upto(self.points@, i as int),
                decreases self.points@.len() - i,
            {
                if i > 0 {
                    s.append("\n");
                }
                let line = self.points[i].to_string();
                s.append(line.as_str());
                i = i + 1;
                proof {
                    assert(s@ =~= point_lines_upto(self.points@, i as int));
                }
            }
            s
        }
    }

    /// Empties the document.
    pub fn clear(&mut self)
        ensures
            final(self).points@ == Seq::<AgendaPoint>::empty(),
    {
        self.points.clear();
    }
}

/// Appending a point and then reading gives back a document one point
/// longer, ending in that point, with everything before it unchanged.
/// (`push_write` leaves the document as `before.push(p)`, and `read`
/// returns the document itself.)
pub proof fn lemma_append_then_read(before: Seq<AgendaPoint>, p: AgendaPoint)
    ensures
        before.push(p).len() == before.len() + 1,
        before.push(p).last() == p,
        before.push(p).subrange(0, before.len() as int) == before,
{
    assert(before.push(p).subrange(0, before.len() as int) =~= before);
}

/// Removing an empty span leaves the document unchanged: what
/// `remove_many` leaves behind for equal bounds is the document itself.
pub proof fn lemma_remove_empty_span(s: Seq<AgendaPoint>, i: int)
    requires
        0 <= i <= s.len(),
    ensures
        s.subrange(0, i) + s.subrange(i, s.len() as int) == s,
{
    assert(s.subrange(0, i) + s.subrange(i, s.len() as int) =~= s);
}

/// Removing the full span empties the document: what `remove_many`
/// leaves behind for the widest bounds holds nothing.
pub proof fn lemma_remove_full_span(s: Seq<AgendaPoint>)
    ensures
        s.subrange(0, 0) + s.subrange(s.len() as int, s.len() as int) == Seq::<
            AgendaPoint,
        >::empty(),
{
    assert(s.subrange(0, 0) + s.subrange(s.len() as int, s.len() as int) =~= Seq::<
        AgendaPoint,
    >::empty());
}

} // verus!
