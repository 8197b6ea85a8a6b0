//! Wall-clock timestamps and interval arithmetic.
//!
//! A `Timestamp` is a time of day without a date. All interval arithmetic is
//! relative to a start-of-session anchor: whenever an end time is not after a
//! start time, the end is taken to lie on the following day, so sessions may
//! cross midnight.

use vstd::prelude::*;

verus! {

/// A wall-clock time of day: hour `0..=23`, minute `0..=59`.
#[derive(Copy, Clone, Debug, PartialEq, Eq, Structural)]
pub struct Timestamp {
    pub hour: u32,
    pub minute: u32,
}

impl Timestamp {
    /// A timestamp denotes a real time of day.
    pub open spec fn wf(self) -> bool {
        self.hour <= 23 && self.minute <= 59
    }

    /// Minutes since midnight.
    pub open spec fn total_minutes(self) -> int {
        self.hour * 60 + self.minute
    }

    /// Minutes from `other` to `self`; when `self` is not after `other`,
    /// `self` is taken to lie on the following day.
    pub open spec fn sub_spec(self, other: Timestamp) -> int {
        if self.total_minutes() >= other.total_minutes() {
            self.total_minutes() - other.total_minutes()
        } else {
            self.total_minutes() + 1440 - other.total_minutes()
        }
    }

    /// `x` lies on the closed clockwise arc from `lo` to `hi`, where `hi`
    /// (and `x`, independently) rolls over to the next day when its hour is
    /// less than `lo`'s hour.
    pub open spec fn between_spec(self, lo: Timestamp, hi: Timestamp) -> bool {
        let hi_h: int = if hi.hour < lo.hour { hi.hour + 24 } else { hi.hour as int };
        let x_h: int = if self.hour < lo.hour { self.hour + 24 } else { self.hour as int };
        lo.total_minutes() <= x_h * 60 + self.minute
            && x_h * 60 + self.minute <= hi_h * 60 + hi.minute
    }

    /// Reads `hhmm` written as one integer: `1554` is 15:54, `107` is 1:07.
    pub fn from_shorthand_int_notation(n: u32) -> (t: Timestamp)
        ensures
            t.hour == n / 100,
            t.minute == n % 100,
    {
        Timestamp { hour: n / 100, minute: n % 100 }
    }

    /// Minutes from `other` to `self`, rolling `self` to the next day when it
    /// is not after `other`; always in `0..=1439`.
    pub fn subtract(self, other: Timestamp) -> (r: u32)
        requires
            self.wf(),
            other.wf(),
        ensures
            r == self.sub_spec(other),
            r <= 1439,
    {
        let self_hour: u32 = if self.hour < other.hour
            || (self.hour == other.hour && self.minute < other.minute) {
            self.hour + 24
        } else {
            self.hour
        };
        self_hour * 60 + self.minute - (other.hour * 60 + other.minute)
    }

    /// True iff `self` lies in the closed clockwise arc from `a` to `b`.
    pub fn incl_is_between(&self, a: Timestamp, b: Timestamp) -> (r: bool)
        requires
            self.wf(),
            a.wf(),
            b.wf(),
        ensures
            r == self.between_spec(a, b),
    {
        let b_hour: u32 = if b.hour < a.hour { b.hour + 24 } else { b.hour };
        let self_hour: u32 = if self.hour < a.hour { self.hour + 24 } else { self.hour };
        let a_total_min: u32 = a.hour * 60 + a.minute;
        let self_total_min: u32 = self_hour * 60 + self.minute;
        let b_total_min: u32 = b_hour * 60 + b.minute;
        a_total_min <= self_total_min && self_total_min <= b_total_min
    }
}

/// Every timestamp in a break list denotes a real time of day.
pub open spec fn breaks_wf(breaks: Seq<(Timestamp, Timestamp)>) -> bool {
    forall|i: int| 0 <= i < breaks.len() ==> (#[trigger] breaks[i]).0.wf() && breaks[i].1.wf()
}

/// A break straddles the period `[start, end]`: exactly one of its two
/// endpoints lies inside the period.
pub open spec fn straddles(b: (Timestamp, Timestamp), start: Timestamp, end: Timestamp) -> bool {
    b.0.between_spec(start, end) != b.1.between_spec(start, end)
}

/// Walks the break list in order with `acc` minutes remaining: a straddling
/// break makes the whole computation invalid, a break lying inside the period
/// has its duration taken out of `acc`, and a break that would take out more
/// than is left is invalid as well.
pub open spec fn effective_minutes_rec(
    start: Timestamp,
    end: Timestamp,
    breaks: Seq<(Timestamp, Timestamp)>,
    acc: int,
) -> Option<int>
    decreases breaks.len(),
{
    if breaks.len() == 0 {
        Some(acc)
    } else {
        let b = breaks[0];
        if straddles(b, start, end) {
            None
        } else if b.0.between_spec(start, end) {
            let d = b.1.sub_spec(b.0);
            if acc - d < 0 {
                None
            } else {
                effective_minutes_rec(start, end, breaks.drop_first(), acc - d)
            }
        } else {
            effective_minutes_rec(start, end, breaks.drop_first(), acc)
        }
    }
}

/// Effective observing minutes of the period `[start, end]` after the breaks
/// are taken out; `None` when the break list is invalid for this period.
pub open spec fn effective_minutes_spec(
    start: Timestamp,
    end: Timestamp,
    breaks: Seq<(Timestamp, Timestamp)>,
) -> Option<int> {
    effective_minutes_rec(start, end, breaks, end.sub_spec(start))
}

/// Total observing minutes from `start` to `end` with the given breaks taken
/// out. A break must lie entirely inside or entirely outside the period:
/// a straddling break yields `None`, as does a break list that would leave a
/// negative duration.
pub fn effective_time_minutes(
    start: Timestamp,
    end: Timestamp,
    breaks: &Vec<(Timestamp, Timestamp)>,
) -> (r: Option<u32>)
    requires
        start.wf(),
        end.wf(),
        breaks_wf(breaks@),
    ensures
        match r {
            Some(m) => effective_minutes_spec(start, end, breaks@) == Some(m as int) && m <= 1439,
            None => effective_minutes_spec(start, end, breaks@) is None,
        },
{
    let mut minutes: u32 = end.subtract(start);
    let ghost full = breaks@;
    proof {
        assert(breaks@.skip(0) =~= breaks@);
    }
    for i in 0..breaks.len()
        invariant
            start.wf(),
            end.wf(),
            breaks_wf(breaks@),
            breaks@ == full,
            minutes <= 1439,
            effective_minutes_rec(start, end, breaks@.skip(i as int), minutes as int)
                == effective_minutes_spec(start, end, full),
    {
        let b = breaks[i];
        proof {
            assert(breaks@.skip(i as int)[0] == b);
            assert(breaks@.skip(i as int).drop_first() =~= breaks@.skip(i + 1));
        }
        let b0_inside = b.0.incl_is_between(start, end);
        let b1_inside = b.1.incl_is_between(start, end);
        if b0_inside != b1_inside {
            // a break can only be entirely outside or inside the period
            return None;
        }
        if b0_inside {
            let d = b.1.subtract(b.0);
            if d > minutes {
                return None;
            }
            minutes = minutes - d;
        }
    }
    proof {
        assert(breaks@.skip(breaks@.len() as int) =~= Seq::<(Timestamp, Timestamp)>::empty());
    }
    Some(minutes)
}

/// With no breaks, the effective duration is exactly the wraparound
/// difference from `start` to `end`.
pub proof fn lemma_effective_no_breaks(start: Timestamp, end: Timestamp)
    ensures
        effective_minutes_spec(start, end, Seq::empty()) == Some(end.sub_spec(start)),
{
}

/// A break that straddles the period boundary makes the whole break list
/// invalid, wherever it stands relative to the other breaks.
pub proof fn lemma_straddling_break_invalid(
    start: Timestamp,
    end: Timestamp,
    breaks: Seq<(Timestamp, Timestamp)>,
    i: int,
)
    requires
        0 <= i < breaks.len(),
        straddles(breaks[i], start, end),
    ensures
        effective_minutes_spec(start, end, breaks) is None,
{
    lemma_straddling_break_rec(start, end, breaks, i, end.sub_spec(start));
}

proof fn lemma_straddling_break_rec(
    start: Timestamp,
    end: Timestamp,
    breaks: Seq<(Timestamp, Timestamp)>,
    i: int,
    acc: int,
)
    requires
        0 <= i < breaks.len(),
        straddles(breaks[i], start, end),
    ensures
        effective_minutes_rec(start, end, breaks, acc) is None,
    decreases breaks.len(),
{
    let b = breaks[0];
    if i == 0 {
    } else if straddles(b, start, end) {
    } else if b.0.between_spec(start, end) {
        let d = b.1.sub_spec(b.0);
        if acc - d >= 0 {
            assert(breaks.drop_first()[i - 1] == breaks[i]);
            lemma_straddling_break_rec(start, end, breaks.drop_first(), i - 1, acc - d);
        }
    } else {
        assert(breaks.drop_first()[i - 1] == breaks[i]);
        lemma_straddling_break_rec(start, end, breaks.drop_first(), i - 1, acc);
    }
}

} // verus!
