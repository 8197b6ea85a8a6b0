//! Core of a visual meteor observation log processor.
//!
//! A chronological stream of observation events (period boundaries, breaks,
//! sky-quality samples, meteors) is folded into a validated list of observing
//! periods, each carrying the derived statistics required by the
//! International Meteor Organization reporting format: effective observing
//! duration, weighted limiting magnitude and weighted cloud factor.
//!
//! Magnitudes and factors are carried as scaled integers: a limiting
//! magnitude of 5.64 is the value 564 (hundredths of a magnitude), a cloud
//! factor of 1.05 is the value 105 (hundredths).

pub mod areas;
pub mod builder;
pub mod distribution;
pub mod factors;
pub mod field;
pub mod meteor;
pub mod rounding;
pub mod session;
pub mod timestamp;
