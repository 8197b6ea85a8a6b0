//! The period builder state machine.
//!
//! A `SessionBuilder` consumes timestamped events one by one, accumulating
//! an in-progress period. `NewPeriod` finalizes the accumulator into an
//! immutable [`Period`] and starts a fresh one; `into_session` finalizes the
//! last accumulator and hands out the whole [`Session`]. Every transition
//! and every finalization rule is captured by the spec functions
//! [`builder_step`] and [`finalize_spec`].

use vstd::prelude::*;
use crate::areas::{AreaTable, get_limiting_magnitude_avg, lm_avg_spec};
use crate::factors;
use crate::factors::{
    cloud_factor_spec, duration_total_cloud, duration_total_lm, limiting_magnitude_spec,
};
use crate::field::Field;
use crate::meteor::{Meteor, Shower};
use crate::session::{Event, EventV, Period, PeriodV, Session, TimestampedEvent};
use crate::session::shower_list_contains;
use crate::timestamp::{breaks_wf, effective_minutes_spec, effective_time_minutes, Timestamp};

verus! {

/// Everything that can go wrong while events are registered or a period is
/// finalized. Each variant is terminal: the failing event or finalization
/// is aborted and the reason surfaced to the caller.
#[derive(Clone, Debug, PartialEq, Eq, Structural)]
pub enum BuilderError {
    NoStartTime,
    NoEndTime,
    NoLm,
    NoField,
    NoF,
    NoDate,
    AlreadyDate,
    AlreadyField,
    AlreadyShowers,
    InvalidLm,
    InBreak,
    NoBreakToEnd,
    UnfinishedBreak,
    InvalidBreaks,
    LmInsufficientTeff,
    FInsufficientTeff,
    NotObservingShower,
    Unknown,
}

impl BuilderError {
    /// The user-displayable description of the error.
    pub open spec fn message_spec(self) -> Seq<char> {
        match self {
            BuilderError::NoStartTime => "No start time given for this period."@,
            BuilderError::NoEndTime => "No end time given for this period."@,
            BuilderError::NoLm =>
                "No areas for the calculation of limiting magnitude are counted."@,
            BuilderError::NoField => "No field given for this period."@,
            BuilderError::NoF => "No cloud information given for this period."@,
            BuilderError::NoDate => "No date specified for this period."@,
            BuilderError::AlreadyDate => "You already specified a date for this period."@,
            BuilderError::AlreadyField => "You already specified a field for this period."@,
            BuilderError::AlreadyShowers => "You already specified showers for this period."@,
            BuilderError::InvalidLm => "Invalid data for calculating limiting magnitude."@,
            BuilderError::InBreak => "You can't register events during a break."@,
            BuilderError::NoBreakToEnd => "There is no ongoing break to end."@,
            BuilderError::UnfinishedBreak => "You started a break that didn't end."@,
            BuilderError::InvalidBreaks => "Your breaks do not adhere to the break rules."@,
            BuilderError::LmInsufficientTeff =>
                "Your recorded limiting magnitudes do not span your whole period."@,
            BuilderError::FInsufficientTeff =>
                "Your recorded cloud estimates do not span your whole period."@,
            BuilderError::NotObservingShower =>
                "Meteor belongs to a shower that you are not observing."@,
            BuilderError::Unknown => "unexpected error"@,
        }
    }

    /// The user-displayable description of the error.
    pub fn message(&self) -> (r: &'static str)
        ensures
            r@ == self.message_spec(),
    {
        match self {
            BuilderError::NoStartTime => "No start time given for this period.",
            BuilderError::NoEndTime => "No end time given for this period.",
            BuilderError::NoLm =>
                "No areas for the calculation of limiting magnitude are counted.",
            BuilderError::NoField => "No field given for this period.",
            BuilderError::NoF => "No cloud information given for this period.",
            BuilderError::NoDate => "No date specified for this period.",
            BuilderError::AlreadyDate => "You already specified a date for this period.",
            BuilderError::AlreadyField => "You already specified a field for this period.",
            BuilderError::AlreadyShowers => "You already specified showers for this period.",
            BuilderError::InvalidLm => "Invalid data for calculating limiting magnitude.",
            BuilderError::InBreak => "You can't register events during a break.",
            BuilderError::NoBreakToEnd => "There is no ongoing break to end.",
            BuilderError::UnfinishedBreak => "You started a break that didn't end.",
            BuilderError::InvalidBreaks => "Your breaks do not adhere to the break rules.",
            BuilderError::LmInsufficientTeff =>
                "Your recorded limiting magnitudes do not span your whole period.",
            BuilderError::FInsufficientTeff =>
                "Your recorded cloud estimates do not span your whole period.",
            BuilderError::NotObservingShower =>
                "Meteor belongs to a shower that you are not observing.",
            BuilderError::Unknown => "unexpected error",
        }
    }
}

/// The mutable accumulator behind the builder: everything registered so far
/// for the period in progress.
struct IncompletePeriod {
    start_time: Option<Timestamp>,
    end_time: Option<Timestamp>,
    date: Option<String>,
    field: Option<Field>,
    showers: Option<Vec<Shower>>,
    meteors: Vec<Meteor>,
    limiting_magnitudes: Vec<(i32, Timestamp)>,
    clouds: Vec<(u8, Timestamp)>,
    breaks: Vec<(Timestamp, Timestamp)>,
    current_break: Option<Timestamp>,
}

/// The abstract value of the accumulator.
#[verifier::ext_equal]
pub struct IncV {
    pub start_time: Option<Timestamp>,
    pub end_time: Option<Timestamp>,
    pub date: Option<Seq<char>>,
    pub field: Option<Field>,
    pub showers: Option<Seq<Shower>>,
    pub meteors: Seq<Meteor>,
    pub limiting_magnitudes: Seq<(i32, Timestamp)>,
    pub clouds: Seq<(u8, Timestamp)>,
    pub breaks: Seq<(Timestamp, Timestamp)>,
    pub current_break: Option<Timestamp>,
}

impl View for IncompletePeriod {
    type V = IncV;

    closed spec fn view(&self) -> IncV {
        IncV {
            start_time: self.start_time,
            end_time: self.end_time,
            date: match self.date {
                Some(ref d) => Some(d@),
                None => None,
            },
            field: self.field,
            showers: match self.showers {
                Some(ref s) => Some(s@),
                None => None,
            },
            meteors: self.meteors@,
            limiting_magnitudes: self.limiting_magnitudes@,
            clouds: self.clouds@,
            breaks: self.breaks@,
            current_break: self.current_break,
        }
    }
}

/// A fresh, empty accumulator.
pub open spec fn empty_inc() -> IncV {
    IncV {
        start_time: None,
        end_time: None,
        date: None,
        field: None,
        showers: None,
        meteors: Seq::empty(),
        limiting_magnitudes: Seq::empty(),
        clouds: Seq::empty(),
        breaks: Seq::empty(),
        current_break: None,
    }
}

/// Every timestamp the accumulator holds denotes a real time of day, and
/// every recorded cloud percentage is in range.
pub open spec fn inc_wf(inc: IncV) -> bool {
    &&& match inc.start_time {
        Some(t) => t.wf(),
        None => true,
    }
    &&& match inc.end_time {
        Some(t) => t.wf(),
        None => true,
    }
    &&& match inc.current_break {
        Some(t) => t.wf(),
        None => true,
    }
    &&& breaks_wf(inc.breaks)
    &&& forall|i: int|
        0 <= i < inc.limiting_magnitudes.len() ==> (#[trigger] inc.limiting_magnitudes[i]).1.wf()
    &&& forall|i: int|
        0 <= i < inc.clouds.len() ==> (#[trigger] inc.clouds[i]).1.wf() && inc.clouds[i].0 <= 99
}

impl IncompletePeriod {
    fn new() -> (r: IncompletePeriod)
        ensures
            r@ == empty_inc(),
            inc_wf(r@),
    {
        let r = IncompletePeriod {
            start_time: None,
            end_time: None,
            date: None,
            field: None,
            showers: None,
            meteors: Vec::new(),
            limiting_magnitudes: Vec::new(),
            clouds: Vec::new(),
            breaks: Vec::new(),
            current_break: None,
        };
        proof {
            assert(r@ =~~= empty_inc());
        }
        r
    }
}

/// The end of the interval belonging to checkpoint `i`: the time of the
/// next checkpoint, or the period end for the last one.
pub open spec fn segment_end<T>(cs: Seq<(T, Timestamp)>, end: Timestamp, i: int) -> Timestamp {
    if i + 1 < cs.len() {
        cs[i + 1].1
    } else {
        end
    }
}

/// Every checkpoint interval has a valid effective duration against the
/// given breaks.
pub open spec fn segments_valid<T>(
    cs: Seq<(T, Timestamp)>,
    end: Timestamp,
    breaks: Seq<(Timestamp, Timestamp)>,
) -> bool {
    forall|i: int|
        0 <= i < cs.len() ==> effective_minutes_spec(
            (#[trigger] cs[i]).1,
            segment_end(cs, end, i),
            breaks,
        ) is Some
}

/// The checkpoints turned into duration-weighted segments: each carries its
/// own value and the effective minutes from its time to the next
/// checkpoint's time (or the period end).
pub open spec fn segments_of<T>(
    cs: Seq<(T, Timestamp)>,
    end: Timestamp,
    breaks: Seq<(Timestamp, Timestamp)>,
) -> Seq<(T, u32)> {
    Seq::new(
        cs.len(),
        |i: int|
            (
                cs[i].0,
                effective_minutes_spec(cs[i].1, segment_end(cs, end, i), breaks).unwrap() as u32,
            ),
    )
}

/// An empty checkpoint list segments to an empty segment list, and is
/// always valid, whatever the end time and the breaks.
pub proof fn lemma_segment_empty<T>(end: Timestamp, breaks: Seq<(Timestamp, Timestamp)>)
    ensures
        segments_valid(Seq::<(T, Timestamp)>::empty(), end, breaks),
        segments_of(Seq::<(T, Timestamp)>::empty(), end, breaks) == Seq::<(T, u32)>::empty(),
{
    assert(segments_of(Seq::<(T, Timestamp)>::empty(), end, breaks) =~= Seq::<(T, u32)>::empty());
}

/// Turns ordered `(value, time)` checkpoints into `(value, minutes)`
/// segments against the period end and the break list; `None` as soon as
/// any interval has an invalid break.
pub fn checkpoints_to_durations<T: Copy>(
    cs: &Vec<(T, Timestamp)>,
    end: Timestamp,
    breaks: &Vec<(Timestamp, Timestamp)>,
) -> (r: Option<Vec<(T, u32)>>)
    requires
        end.wf(),
        breaks_wf(breaks@),
        forall|i: int| 0 <= i < cs@.len() ==> (#[trigger] cs@[i]).1.wf(),
    ensures
        match r {
            Some(v) => segments_valid(cs@, end, breaks@) && v@ == segments_of(cs@, end, breaks@)
                && (forall|j: int| 0 <= j < v@.len() ==> (#[trigger] v@[j]).1 <= 1439),
            None => !segments_valid(cs@, end, breaks@),
        },
{
    let mut result: Vec<(T, u32)> = Vec::new();
    let n = cs.len();
    for i in 0..n
        invariant
            n == cs@.len(),
            end.wf(),
            breaks_wf(breaks@),
            forall|j: int| 0 <= j < cs@.len() ==> (#[trigger] cs@[j]).1.wf(),
            result@.len() == i,
            forall|j: int|
                0 <= j < i ==> effective_minutes_spec(
                    (#[trigger] cs@[j]).1,
                    segment_end(cs@, end, j),
                    breaks@,
                ) is Some,
            forall|j: int| 0 <= j < i ==> #[trigger] result@[j] == segments_of(cs@, end, breaks@)[j],
            forall|j: int| 0 <= j < i ==> (#[trigger] result@[j]).1 <= 1439,
    {
        let curr = cs[i];
        let next_time = if i + 1 < n {
            cs[i + 1].1
        } else {
            end
        };
        proof {
            assert(segment_end(cs@, end, i as int) == next_time);
        }
        match effective_time_minutes(curr.1, next_time, breaks) {
            Some(m) => {
                result.push((curr.0, m));
            },
            None => {
                return None;
            },
        }
    }
    proof {
        assert(result@ =~= segments_of(cs@, end, breaks@));
    }
    Some(result)
}

/// What finalizing an accumulator yields: the checks of completeness and
/// consistency in their priority order, then the assembled period.
pub open spec fn finalize_spec(inc: IncV) -> Result<PeriodV, BuilderError> {
    if inc.clouds.len() == 0 {
        Err(BuilderError::NoF)
    } else if inc.limiting_magnitudes.len() == 0 {
        Err(BuilderError::NoLm)
    } else if inc.current_break is Some {
        Err(BuilderError::UnfinishedBreak)
    } else if inc.start_time is None {
        Err(BuilderError::NoStartTime)
    } else if inc.end_time is None {
        Err(BuilderError::NoEndTime)
    } else if inc.field is None {
        Err(BuilderError::NoField)
    } else if inc.date is None {
        Err(BuilderError::NoDate)
    } else {
        let start = inc.start_time.unwrap();
        let end = inc.end_time.unwrap();
        match effective_minutes_spec(start, end, inc.breaks) {
            None => Err(BuilderError::InvalidBreaks),
            Some(teff) => if !segments_valid(inc.limiting_magnitudes, end, inc.breaks) {
                Err(BuilderError::InvalidBreaks)
            } else if !segments_valid(inc.clouds, end, inc.breaks) {
                Err(BuilderError::InvalidBreaks)
            } else {
                let lm_segs = segments_of(inc.limiting_magnitudes, end, inc.breaks);
                let cloud_segs = segments_of(inc.clouds, end, inc.breaks);
                if duration_total_lm(lm_segs, lm_segs.len() as int) != teff {
                    Err(BuilderError::LmInsufficientTeff)
                } else if duration_total_cloud(cloud_segs, cloud_segs.len() as int) != teff {
                    Err(BuilderError::FInsufficientTeff)
                } else {
                    Ok(
                        PeriodV {
                            start_time: start,
                            end_time: end,
                            date: inc.date.unwrap(),
                            teff_minutes: teff as u32,
                            limiting_magnitude: limiting_magnitude_spec(lm_segs) as i32,
                            field: inc.field.unwrap(),
                            cloud_factor: cloud_factor_spec(cloud_segs) as u32,
                            showers: match inc.showers {
                                Some(s) => s,
                                None => Seq::empty(),
                            },
                            meteors: inc.meteors,
                        },
                    )
                }
            },
        }
    }
}

impl IncompletePeriod {
    /// Finalizes the accumulator into an immutable period, or reports the
    /// first failing completeness or consistency rule.
    fn into_period(self) -> (r: Result<Period, BuilderError>)
        requires
            inc_wf(self@),
        ensures
            match r {
                Ok(p) => finalize_spec(self@) == Ok::<PeriodV, BuilderError>(p@),
                Err(e) => finalize_spec(self@) == Err::<PeriodV, BuilderError>(e),
            },
    {
        let ghost inc = self@;
        if self.clouds.len() == 0 {
            return Err(BuilderError::NoF);
        }
        if self.limiting_magnitudes.len() == 0 {
            return Err(BuilderError::NoLm);
        }
        if self.current_break.is_some() {
            return Err(BuilderError::UnfinishedBreak);
        }
        let start = match self.start_time {
            Some(t) => t,
            None => {
                return Err(BuilderError::NoStartTime);
            },
        };
        let end = match self.end_time {
            Some(t) => t,
            None => {
                return Err(BuilderError::NoEndTime);
            },
        };
        let field = match self.field {
            Some(f) => f,
            None => {
                return Err(BuilderError::NoField);
            },
        };
        let date = match self.date {
            Some(d) => d,
            None => {
                return Err(BuilderError::NoDate);
            },
        };
        let teff_minutes = match effective_time_minutes(start, end, &self.breaks) {
            Some(x) => x,
            None => {
                return Err(BuilderError::InvalidBreaks);
            },
        };
        let lms = match checkpoints_to_durations(&self.limiting_magnitudes, end, &self.breaks) {
            Some(x) => x,
            None => {
                return Err(BuilderError::InvalidBreaks);
            },
        };
        let clouds = match checkpoints_to_durations(&self.clouds, end, &self.breaks) {
            Some(x) => x,
            None => {
                return Err(BuilderError::InvalidBreaks);
            },
        };
        let mut lm_teff: u128 = 0;
        for i in 0..lms.len()
            invariant
                lm_teff == duration_total_lm(lms@, i as int),
                lm_teff <= 1439 * i,
                forall|j: int| 0 <= j < lms@.len() ==> (#[trigger] lms@[j]).1 <= 1439,
        {
            proof {
                assert(1439 * (i + 1) == 1439 * i + 1439) by (nonlinear_arith);
            }
            lm_teff = lm_teff + lms[i].1 as u128;
        }
        if lm_teff != teff_minutes as u128 {
            return Err(BuilderError::LmInsufficientTeff);
        }
        let mut f_teff: u128 = 0;
        for i in 0..clouds.len()
            invariant
                f_teff == duration_total_cloud(clouds@, i as int),
                f_teff <= 1439 * i,
                forall|j: int| 0 <= j < clouds@.len() ==> (#[trigger] clouds@[j]).1 <= 1439,
        {
            proof {
                assert(1439 * (i + 1) == 1439 * i + 1439) by (nonlinear_arith);
            }
            f_teff = f_teff + clouds[i].1 as u128;
        }
        if f_teff != teff_minutes as u128 {
            return Err(BuilderError::FInsufficientTeff);
        }
        let lm_avg = factors::limiting_magnitude(&lms);
        proof {
            assert(forall|j: int|
                0 <= j < clouds@.len() ==> (#[trigger] clouds@[j]).0 == inc.clouds[j].0
                    && clouds@[j].0 <= 99);
        }
        let cloud_factor = factors::cloud_factor(&clouds);
        let p = Period {
            start_time: start,
            end_time: end,
            date,
            teff_minutes,
            limiting_magnitude: lm_avg,
            field,
            cloud_factor,
            showers: match self.showers {
                Some(s) => s,
                None => Vec::new(),
            },
            meteors: self.meteors,
        };
        proof {
            let f = finalize_spec(inc);
            assert(f is Ok);
            assert(p@ =~~= f.unwrap());
        }
        Ok(p)
    }
}

/// The abstract state of the builder: the lookup table it resolves area
/// counts with, the periods finalized so far and the accumulator in
/// progress.
#[verifier::ext_equal]
pub struct BuilderV {
    pub table: Seq<Seq<i32>>,
    pub periods: Seq<PeriodV>,
    pub current: IncV,
}

/// An event is well formed when the data it carries is in range: a cloud
/// cover sample is a percentage from 0 to 99.
pub open spec fn event_wf(e: EventV) -> bool {
    match e {
        EventV::Clouds(c) => c <= 99,
        _ => true,
    }
}

/// The transition of the builder on one timestamped event: the state after
/// the event and the result handed back. While a break is open only
/// `BreakEnd` is accepted. A failing `NewPeriod` still leaves a fresh
/// accumulator behind; every other failure leaves the state unchanged.
pub open spec fn builder_step(b: BuilderV, t: Timestamp, e: EventV) -> (
    BuilderV,
    Result<(), BuilderError>,
) {
    if b.current.current_break is Some && !(e is BreakEnd) {
        (b, Err(BuilderError::InBreak))
    } else {
        match e {
            EventV::NewPeriod => match finalize_spec(b.current) {
                Ok(p) => (
                    BuilderV { periods: b.periods.push(p), current: empty_inc(), ..b },
                    Ok(()),
                ),
                Err(er) => (BuilderV { current: empty_inc(), ..b }, Err(er)),
            },
            EventV::PeriodStart => (
                BuilderV { current: IncV { start_time: Some(t), ..b.current }, ..b },
                Ok(()),
            ),
            EventV::PeriodEnd => (
                BuilderV { current: IncV { end_time: Some(t), ..b.current }, ..b },
                Ok(()),
            ),
            EventV::PeriodDate(d) => if b.current.date is Some {
                (b, Err(BuilderError::AlreadyDate))
            } else {
                (BuilderV { current: IncV { date: Some(d), ..b.current }, ..b }, Ok(()))
            },
            EventV::Meteor(m) => {
                let declared = match b.current.showers {
                    Some(s) => s,
                    None => Seq::empty(),
                };
                if !declared.contains(m.shower) {
                    (b, Err(BuilderError::NotObservingShower))
                } else {
                    (
                        BuilderV {
                            current: IncV { meteors: b.current.meteors.push(m), ..b.current },
                            ..b
                        },
                        Ok(()),
                    )
                }
            },
            EventV::Field(f) => if b.current.field is Some {
                (b, Err(BuilderError::AlreadyField))
            } else {
                (BuilderV { current: IncV { field: Some(f), ..b.current }, ..b }, Ok(()))
            },
            EventV::AreasCounted(counts) => match lm_avg_spec(b.table, counts) {
                Some(v) => (
                    BuilderV {
                        current: IncV {
                            limiting_magnitudes: b.current.limiting_magnitudes.push(
                                (v as i32, t),
                            ),
                            ..b.current
                        },
                        ..b
                    },
                    Ok(()),
                ),
                None => (b, Err(BuilderError::InvalidLm)),
            },
            EventV::Clouds(c) => (
                BuilderV {
                    current: IncV { clouds: b.current.clouds.push((c, t)), ..b.current },
                    ..b
                },
                Ok(()),
            ),
            EventV::BreakStart => (
                BuilderV { current: IncV { current_break: Some(t), ..b.current }, ..b },
                Ok(()),
            ),
            EventV::BreakEnd => match b.current.current_break {
                Some(bs) => (
                    BuilderV {
                        current: IncV {
                            breaks: b.current.breaks.push((bs, t)),
                            current_break: None,
                            ..b.current
                        },
                        ..b
                    },
                    Ok(()),
                ),
                None => (b, Err(BuilderError::NoBreakToEnd)),
            },
            EventV::Showers(s) => if b.current.showers is Some {
                (b, Err(BuilderError::AlreadyShowers))
            } else {
                (BuilderV { current: IncV { showers: Some(s), ..b.current }, ..b }, Ok(()))
            },
        }
    }
}

/// Builds a session from a stream of timestamped events.
pub struct SessionBuilder {
    periods: Vec<Period>,
    current: IncompletePeriod,
    table: AreaTable,
}

impl View for SessionBuilder {
    type V = BuilderV;

    closed spec fn view(&self) -> BuilderV {
        BuilderV {
            table: self.table@,
            periods: self.periods@.map_values(|p: Period| p@),
            current: self.current@,
        }
    }
}

impl SessionBuilder {
    /// The accumulator in progress holds only real times of day and cloud
    /// percentages in range.
    pub open spec fn wf(&self) -> bool {
        inc_wf(self@.current)
    }

    /// A fresh builder over the standard area table: no period finalized,
    /// an empty accumulator in progress.
    pub fn new() -> (b: SessionBuilder)
        ensures
            b@.periods == Seq::<PeriodV>::empty(),
            b@.current == empty_inc(),
            b@.table.len() == 30,
            b.wf(),
    {
        Self::with_table(AreaTable::standard())
    }

    /// A fresh builder over an injected area table, so that area counts are
    /// resolved against the caller's own data.
    pub fn with_table(table: AreaTable) -> (b: SessionBuilder)
        ensures
            b@.periods == Seq::<PeriodV>::empty(),
            b@.current == empty_inc(),
            b@.table == table@,
            b.wf(),
    {
        let b = SessionBuilder { periods: Vec::new(), current: IncompletePeriod::new(), table };
        proof {
            assert(b@.periods =~= Seq::<PeriodV>::empty());
        }
        b
    }

    /// Registers one timestamped event, transforming the builder state
    /// exactly as [`builder_step`] says.
    pub fn register_event(&mut self, time_and_event: TimestampedEvent) -> (r: Result<
        (),
        BuilderError,
    >)
        requires
            old(self).wf(),
            time_and_event.0.wf(),
            event_wf(time_and_event.1@),
        ensures
            final(self).wf(),
            ({
                let (b2, res) = builder_step(old(self)@, time_and_event.0, time_and_event.1@);
                final(self)@ == b2 && r == res
            }),
    {
        let TimestampedEvent(timestamp, event) = time_and_event;
        let ghost b0 = self@;
        let ghost ev = event@;

        if self.current.current_break.is_some() {
            match event {
                Event::BreakEnd => {},
                _ => {
                    return Err(BuilderError::InBreak);
                },
            }
        }

        match event {
            Event::NewPeriod => {
                let mut c = IncompletePeriod::new();
                core::mem::swap(&mut c, &mut self.current);
                match c.into_period() {
                    Ok(p) => {
                        self.periods.push(p);
                        proof {
                            assert(self@.periods =~= b0.periods.push(p@));
                            assert(self@ =~~= builder_step(b0, timestamp, ev).0);
                        }
                        Ok(())
                    },
                    Err(e) => {
                        proof {
                            assert(self@ =~~= builder_step(b0, timestamp, ev).0);
                        }
                        Err(e)
                    },
                }
            },
            Event::PeriodStart => {
                self.current.start_time = Some(timestamp);
                proof {
                    assert(self@ =~~= builder_step(b0, timestamp, ev).0);
                }
                Ok(())
            },
            Event::PeriodEnd => {
                self.current.end_time = Some(timestamp);
                proof {
                    assert(self@ =~~= builder_step(b0, timestamp, ev).0);
                }
                Ok(())
            },
            Event::PeriodDate(date) => {
                if self.current.date.is_some() {
                    return Err(BuilderError::AlreadyDate);
                }
                self.current.date = Some(date);
                proof {
                    assert(self@ =~~= builder_step(b0, timestamp, ev).0);
                }
                Ok(())
            },
            Event::Meteor(meteor) => {
                let declared = match &self.current.showers {
                    Some(s) => shower_list_contains(s, meteor.shower),
                    None => false,
                };
                if !declared {
                    return Err(BuilderError::NotObservingShower);
                }
                self.current.meteors.push(meteor);
                proof {
                    assert(self@ =~~= builder_step(b0, timestamp, ev).0);
                }
                Ok(())
            },
            Event::Field(field) => {
                if self.current.field.is_some() {
                    return Err(BuilderError::AlreadyField);
                }
                self.current.field = Some(field);
                proof {
                    assert(self@ =~~= builder_step(b0, timestamp, ev).0);
                }
                Ok(())
            },
            Event::AreasCounted(counts) => {
                match get_limiting_magnitude_avg(&counts, &self.table) {
                    Some(lm_avg) => {
                        self.current.limiting_magnitudes.push((lm_avg, timestamp));
                        proof {
                            assert(self@ =~~= builder_step(b0, timestamp, ev).0);
                        }
                        Ok(())
                    },
                    None => Err(BuilderError::InvalidLm),
                }
            },
            Event::Clouds(clouds) => {
                self.current.clouds.push((clouds, timestamp));
                proof {
                    assert(self@ =~~= builder_step(b0, timestamp, ev).0);
                }
                Ok(())
            },
            Event::BreakStart => {
                self.current.current_break = Some(timestamp);
                proof {
                    assert(self@ =~~= builder_step(b0, timestamp, ev).0);
                }
                Ok(())
            },
            Event::BreakEnd => {
                match self.current.current_break {
                    Some(br) => {
                        self.current.breaks.push((br, timestamp));
                        self.current.current_break = None;
                        proof {
                            assert(self@ =~~= builder_step(b0, timestamp, ev).0);
                        }
                        Ok(())
                    },
                    None => Err(BuilderError::NoBreakToEnd),
                }
            },
            Event::Showers(showers) => {
                if self.current.showers.is_some() {
                    return Err(BuilderError::AlreadyShowers);
                }
                self.current.showers = Some(showers);
                proof {
                    assert(self@ =~~= builder_step(b0, timestamp, ev).0);
                }
                Ok(())
            },
        }
    }

    /// Finalizes the accumulator in progress and hands out the whole
    /// session: the periods finalized so far with the last one appended.
    pub fn into_session(self) -> (r: Result<Session, BuilderError>)
        requires
            self.wf(),
        ensures
            match r {
                Ok(s) => finalize_spec(self@.current) is Ok && s@ == self@.periods.push(
                    finalize_spec(self@.current).unwrap(),
                ),
                Err(e) => finalize_spec(self@.current) == Err::<PeriodV, BuilderError>(e),
            },
    {
        let ghost b0 = self@;
        let SessionBuilder { mut periods, current, table: _ } = self;
        match current.into_period() {
            Ok(p) => {
                periods.push(p);
                let s = Session { periods };
                proof {
                    assert(s@ =~= b0.periods.push(finalize_spec(b0.current).unwrap()));
                }
                Ok(s)
            },
            Err(e) => Err(e),
        }
    }
}

/// The builder state after a whole stream of timestamped events.
pub open spec fn run_steps(b: BuilderV, events: Seq<(Timestamp, EventV)>) -> BuilderV
    decreases events.len(),
{
    if events.len() == 0 {
        b
    } else {
        run_steps(builder_step(b, events[0].0, events[0].1).0, events.drop_first())
    }
}

/// Law: one step never touches a period that is already finalized; it can
/// only append to the period list.
pub proof fn lemma_step_preserves_periods(b: BuilderV, t: Timestamp, e: EventV)
    ensures
        b.periods.is_prefix_of(builder_step(b, t, e).0.periods),
{
    let after = builder_step(b, t, e).0.periods;
    assert(b.periods =~= after.subrange(0, b.periods.len() as int));
}

/// Law: however many events follow, the periods finalized so far are never
/// mutated; the final period list only extends them.
pub proof fn lemma_run_preserves_periods(b: BuilderV, events: Seq<(Timestamp, EventV)>)
    ensures
        b.periods.is_prefix_of(run_steps(b, events).periods),
    decreases events.len(),
{
    if events.len() == 0 {
        assert(b.periods =~= run_steps(b, events).periods.subrange(0, b.periods.len() as int));
    } else {
        let b1 = builder_step(b, events[0].0, events[0].1).0;
        lemma_step_preserves_periods(b, events[0].0, events[0].1);
        lemma_run_preserves_periods(b1, events.drop_first());
        let last = run_steps(b, events).periods;
        assert(b.periods =~= last.subrange(0, b.periods.len() as int));
    }
}

/// Law: building is deterministic. The transition is a function of the
/// abstract state and the event alone, so two builders in equal states fed
/// the same event stream end in equal states, and in particular yield
/// identical period lists.
pub proof fn lemma_run_deterministic(
    b1: BuilderV,
    b2: BuilderV,
    events: Seq<(Timestamp, EventV)>,
)
    requires
        b1 == b2,
    ensures
        run_steps(b1, events) == run_steps(b2, events),
{
}

} // verus!
