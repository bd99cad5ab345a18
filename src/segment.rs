//! The wire unit that producers hand to the segmentation engine.
use vstd::prelude::*;

verus! {

/// A chunk of mono samples, stamped with the epoch milliseconds of its first sample.
pub struct Segment {
    pub timestamp_millis: i64,
    pub samples: Vec<i16>,
}

} // verus!
