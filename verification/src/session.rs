//! Events, finalized periods and whole observing sessions.

use vstd::prelude::*;
use crate::areas::Area;
use crate::distribution::{Distribution, dist_add_spec};
use crate::field::Field;
use crate::meteor::{Meteor, Shower};
use crate::timestamp::Timestamp;

verus! {

/// One observation event, as delivered by the event source together with
/// the timestamp at which it was registered.
#[derive(Clone, Debug, PartialEq)]
pub enum Event {
    /// Cloud cover sample, a percentage from 0 to 99.
    Clouds(u8),
    /// Star counts in one or more standard areas, observed simultaneously.
    AreasCounted(Vec<(usize, Area)>),
    /// Observation suspends.
    BreakStart,
    /// Observation resumes.
    BreakEnd,
    /// The current period is finalized and a new one begins.
    NewPeriod,
    /// A meteor sighting.
    Meteor(Meteor),
    /// The observed sky field.
    Field(Field),
    /// The period opens.
    PeriodStart,
    /// The period closes.
    PeriodEnd,
    /// The date line of the period.
    PeriodDate(String),
    /// The declared set of observed showers.
    Showers(Vec<Shower>),
}

/// The abstract value of an [`Event`].
pub enum EventV {
    Clouds(u8),
    AreasCounted(Seq<(usize, Area)>),
    BreakStart,
    BreakEnd,
    NewPeriod,
    Meteor(Meteor),
    Field(Field),
    PeriodStart,
    PeriodEnd,
    PeriodDate(Seq<char>),
    Showers(Seq<Shower>),
}

impl View for Event {
    type V = EventV;

    open spec fn view(&self) -> EventV {
        match self {
            Event::Clouds(c) => EventV::Clouds(*c),
            Event::AreasCounted(counts) => EventV::AreasCounted(counts@),
            Event::BreakStart => EventV::BreakStart,
            Event::BreakEnd => EventV::BreakEnd,
            Event::NewPeriod => EventV::NewPeriod,
            Event::Meteor(m) => EventV::Meteor(*m),
            Event::Field(f) => EventV::Field(*f),
            Event::PeriodStart => EventV::PeriodStart,
            Event::PeriodEnd => EventV::PeriodEnd,
            Event::PeriodDate(d) => EventV::PeriodDate(d@),
            Event::Showers(s) => EventV::Showers(s@),
        }
    }
}

/// An event together with the wall-clock time at which it was registered.
pub struct TimestampedEvent(pub Timestamp, pub Event);

/// A finalized observing period with its derived statistics. Created only
/// by successful finalization and never mutated afterwards.
pub struct Period {
    pub start_time: Timestamp,
    pub end_time: Timestamp,
    pub date: String,
    /// Effective observing duration in minutes, breaks taken out.
    pub teff_minutes: u32,
    /// Weighted limiting magnitude, in hundredths of a magnitude.
    pub limiting_magnitude: i32,
    pub field: Field,
    /// Weighted cloud correction factor, in hundredths.
    pub cloud_factor: u32,
    pub showers: Vec<Shower>,
    pub meteors: Vec<Meteor>,
}

/// The abstract value of a [`Period`].
#[verifier::ext_equal]
pub struct PeriodV {
    pub start_time: Timestamp,
    pub end_time: Timestamp,
    pub date: Seq<char>,
    pub teff_minutes: u32,
    pub limiting_magnitude: i32,
    pub field: Field,
    pub cloud_factor: u32,
    pub showers: Seq<Shower>,
    pub meteors: Seq<Meteor>,
}

impl View for Period {
    type V = PeriodV;

    open spec fn view(&self) -> PeriodV {
        PeriodV {
            start_time: self.start_time,
            end_time: self.end_time,
            date: self.date@,
            teff_minutes: self.teff_minutes,
            limiting_magnitude: self.limiting_magnitude,
            field: self.field,
            cloud_factor: self.cloud_factor,
            showers: self.showers@,
            meteors: self.meteors@,
        }
    }
}

/// The ordered list of finalized periods of one observation run.
pub struct Session {
    pub periods: Vec<Period>,
}

impl View for Session {
    type V = Seq<PeriodV>;

    open spec fn view(&self) -> Seq<PeriodV> {
        self.periods@.map_values(|p: Period| p@)
    }
}

/// The declared showers with duplicates dropped, first occurrence first.
pub open spec fn dedup_showers(s: Seq<Shower>) -> Seq<Shower>
    decreases s.len(),
{
    if s.len() == 0 {
        Seq::empty()
    } else {
        let p = dedup_showers(s.drop_last());
        if p.contains(s.last()) {
            p
        } else {
            p.push(s.last())
        }
    }
}

/// How many of the first `n` meteors belong to shower `s`.
pub open spec fn shower_count(meteors: Seq<Meteor>, s: Shower, n: int) -> int
    decreases n,
{
    if n <= 0 {
        0
    } else {
        shower_count(meteors, s, n - 1) + if meteors[n - 1].shower == s {
            1int
        } else {
            0int
        }
    }
}

/// The magnitude distribution of the first `n` meteors of shower `s`.
pub open spec fn shower_dist(meteors: Seq<Meteor>, s: Shower, n: int) -> Seq<u32>
    decreases n,
{
    if n <= 0 {
        Seq::new(14, |i: int| 0u32)
    } else {
        let p = shower_dist(meteors, s, n - 1);
        if meteors[n - 1].shower == s {
            dist_add_spec(p, meteors[n - 1])
        } else {
            p
        }
    }
}

/// The distribution of a shower keeps one count per magnitude class, and
/// after `n` meteors no class exceeds `10 * n`.
proof fn lemma_shower_dist_bounds(meteors: Seq<Meteor>, s: Shower, n: int)
    requires
        0 <= n,
    ensures
        shower_dist(meteors, s, n).len() == 14,
        forall|i: int|
            0 <= i < 14 ==> #[trigger] shower_dist(meteors, s, n)[i] <= 10 * n,
    decreases n,
{
    if n > 0 {
        lemma_shower_dist_bounds(meteors, s, n - 1);
        assert(10 * n == 10 * (n - 1) + 10);
    }
}

/// True iff the list holds the shower.
pub(crate) fn shower_list_contains(v: &Vec<Shower>, s: Shower) -> (r: bool)
    ensures
        r == v@.contains(s),
{
    for i in 0..v.len()
        invariant
            forall|j: int| 0 <= j < i ==> v@[j] != s,
    {
        if v[i] == s {
            return true;
        }
    }
    false
}

impl Period {
    /// For each declared shower, in first-declaration order, the number of
    /// its meteors and their magnitude distribution.
    pub fn get_count_and_distribution(&self) -> (r: Vec<(Shower, (u32, Distribution))>)
        requires
            forall|i: int|
                0 <= i < self.meteors@.len() ==> self.showers@.contains(
                    (#[trigger] self.meteors@[i]).shower,
                ),
            self.meteors@.len() <= 400_000_000,
        ensures
            r@.len() == dedup_showers(self.showers@).len(),
            forall|k: int|
                0 <= k < r@.len() ==> {
                    let s = dedup_showers(self.showers@)[k];
                    let m = self.meteors@.len() as int;
                    (#[trigger] r@[k]).0 == s && r@[k].1.0 == shower_count(self.meteors@, s, m)
                        && r@[k].1.1.0@ == shower_dist(self.meteors@, s, m)
                },
    {
        let ghost all = self.showers@;
        let mut seen: Vec<Shower> = Vec::new();
        for i in 0..self.showers.len()
            invariant
                all == self.showers@,
                seen@ == dedup_showers(all.take(i as int)),
        {
            proof {
                assert(all.take(i + 1).drop_last() =~= all.take(i as int));
                assert(all.take(i + 1).last() == all[i as int]);
            }
            if !shower_list_contains(&seen, self.showers[i]) {
                seen.push(self.showers[i]);
            }
        }
        proof {
            assert(all.take(all.len() as int) =~= all);
        }
        let ghost deduped = dedup_showers(all);
        let mut result: Vec<(Shower, (u32, Distribution))> = Vec::new();
        let n_meteors = self.meteors.len();
        for k in 0..seen.len()
            invariant
                seen@ == deduped,
                deduped == dedup_showers(self.showers@),
                n_meteors == self.meteors@.len(),
                n_meteors <= 400_000_000,
                result@.len() == k,
                forall|t: int|
                    0 <= t < k ==> {
                        let s = deduped[t];
                        (#[trigger] result@[t]).0 == s && result@[t].1.0 == shower_count(
                            self.meteors@,
                            s,
                            n_meteors as int,
                        ) && result@[t].1.1.0@ == shower_dist(self.meteors@, s, n_meteors as int)
                    },
        {
            let s = seen[k];
            let mut count: u32 = 0;
            let mut dist = Distribution::new();
            for j in 0..n_meteors
                invariant
                    n_meteors == self.meteors@.len(),
                    n_meteors <= 400_000_000,
                    count == shower_count(self.meteors@, s, j as int),
                    count <= j,
                    dist.wf(),
                    dist.0@ == shower_dist(self.meteors@, s, j as int),
            {
                proof {
                    lemma_shower_dist_bounds(self.meteors@, s, j as int);
                }
                if self.meteors[j].shower == s {
                    count = count + 1;
                    dist.add_meteor(&self.meteors[j]);
                }
            }
            result.push((s, (count, dist)));
        }
        result
    }
}

} // verus!
