//! Magnitude distribution of the meteors seen in one period.
//!
//! Meteor magnitudes are recorded in tenths. For reporting they are binned
//! into whole magnitude classes from -6 to +7: a sighting on a whole
//! magnitude puts a full count of 10 into its class, and one on a half
//! magnitude puts 5 into each of the two neighbouring classes. Magnitudes
//! beyond the ends are clamped onto the outermost classes.

use vstd::prelude::*;
use std::collections::HashMap;

verus! {

/// Counts per magnitude class: entry `i` belongs to magnitude `i - 6`, and
/// each count is in tenths of a sighting, so one whole sighting adds 10.
pub struct Distribution(pub Vec<u32>);

/// Magnitudes in tenths are clamped to the reportable range -6.0 to +7.0.
pub open spec fn clamp_magnitude(m: int) -> int {
    if m < -60 {
        -60
    } else if m > 70 {
        70
    } else {
        m
    }
}

/// Class of the lower half count for a magnitude that sits between two
/// classes, over the clamped magnitude shifted by 60 (so `m60` runs from 0
/// to 130).
pub open spec fn bin_low(m60: int) -> int {
    if m60 >= 65 {
        (m60 - 5) / 10
    } else {
        6 - (65 - m60) / 10
    }
}

/// Class of the upper half count for a magnitude that sits between two
/// classes, over the clamped magnitude shifted by 60.
pub open spec fn bin_high(m60: int) -> int {
    if m60 >= 55 {
        (m60 + 5) / 10
    } else {
        6 - (55 - m60) / 10
    }
}

/// The counts after one meteor is added: a whole magnitude adds 10 to its
/// own class, any other magnitude adds 5 to each neighbouring class (twice
/// to the same class when both neighbours coincide around magnitude 0).
pub open spec fn dist_add_spec(s: Seq<u32>, m: Meteor) -> Seq<u32>
    recommends
        s.len() == 14,
{
    let m60 = clamp_magnitude(m.magnitude as int) + 60;
    if m60 % 10 == 0 {
        s.update(m60 / 10, (s[m60 / 10] + 10) as u32)
    } else {
        let s1 = s.update(bin_low(m60), (s[bin_low(m60)] + 5) as u32);
        s1.update(bin_high(m60), (s1[bin_high(m60)] + 5) as u32)
    }
}

/// The distribution as a map from magnitude class to count.
pub open spec fn dist_map_spec(s: Seq<u32>) -> Map<i32, u32>
    recommends
        s.len() == 14,
{
    map![
        -6i32 => s[0], -5i32 => s[1], -4i32 => s[2], -3i32 => s[3],
        -2i32 => s[4], -1i32 => s[5], 0i32 => s[6], 1i32 => s[7],
        2i32 => s[8], 3i32 => s[9], 4i32 => s[10], 5i32 => s[11],
        6i32 => s[12], 7i32 => s[13]
    ]
}

use crate::meteor::Meteor;

impl Distribution {
    /// There is one count per magnitude class.
    pub open spec fn wf(&self) -> bool {
        self.0@.len() == 14
    }

    /// A distribution with nothing counted yet.
    pub fn new() -> (d: Distribution)
        ensures
            d.wf(),
            d.0@ == Seq::new(14, |i: int| 0u32),
    {
        let counts = vec![0u32, 0, 0, 0, 0, 0, 0, 0, 0, 0, 0, 0, 0, 0];
        proof {
            assert(counts@ =~= Seq::new(14, |i: int| 0u32));
        }
        Distribution(counts)
    }

    /// Counts one meteor into the distribution.
    pub fn add_meteor(&mut self, meteor: &Meteor)
        requires
            old(self).wf(),
            forall|i: int| 0 <= i < 14 ==> #[trigger] old(self).0@[i] <= u32::MAX - 10,
        ensures
            final(self).wf(),
            final(self).0@ == dist_add_spec(old(self).0@, *meteor),
    {
        let m = meteor.magnitude;
        let mag: i32 = if m < -60 {
            -60
        } else if m > 70 {
            70
        } else {
            m
        };
        let m60: u32 = (mag + 60) as u32;
        if m60 % 10 == 0 {
            let idx = (m60 / 10) as usize;
            let c = self.0[idx];
            self.0[idx] = c + 10;
        } else {
            let lo = (if m60 >= 65 {
                (m60 - 5) / 10
            } else {
                6 - (65 - m60) / 10
            }) as usize;
            let c = self.0[lo];
            self.0[lo] = c + 5;
            let hi = (if m60 >= 55 {
                (m60 + 5) / 10
            } else {
                6 - (55 - m60) / 10
            }) as usize;
            let c = self.0[hi];
            self.0[hi] = c + 5;
        }
    }

    /// The distribution as a map from magnitude class (-6 to 7) to count.
    pub fn to_map(&self) -> (r: HashMap<i32, u32>)
        requires
            self.wf(),
        ensures
            r@ == dist_map_spec(self.0@),
    {
        broadcast use vstd::std_specs::hash::group_hash_axioms;

        let mut map = HashMap::new();
        map.insert(-6, self.0[0]);
        map.insert(-5, self.0[1]);
        map.insert(-4, self.0[2]);
        map.insert(-3, self.0[3]);
        map.insert(-2, self.0[4]);
        map.insert(-1, self.0[5]);
        map.insert(0, self.0[6]);
        map.insert(1, self.0[7]);
        map.insert(2, self.0[8]);
        map.insert(3, self.0[9]);
        map.insert(4, self.0[10]);
        map.insert(5, self.0[11]);
        map.insert(6, self.0[12]);
        map.insert(7, self.0[13]);
        proof {
            assert(map@ =~= dist_map_spec(self.0@));
        }
        map
    }
}

} // verus!
