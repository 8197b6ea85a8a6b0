//! The sky field an observer watches.

use vstd::prelude::*;

verus! {

/// Centre of the observed sky field, in tenths of a degree: right ascension
/// 336.0 is the value 3360, declination 52.3 is the value 523.
#[derive(Copy, Clone, Debug, PartialEq, Eq, Structural)]
pub struct Field {
    pub ra: i32,
    pub dec: i32,
}

} // verus!
