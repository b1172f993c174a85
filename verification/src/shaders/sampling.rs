//! Sampling-stage configuration: debanding.

use vstd::prelude::*;

verus! {

/// Debanding configuration.  `threshold`, `radius` and `grain` are
/// stored in thousandths.
#[derive(Clone, Copy, Debug, PartialEq, Eq, Structural)]
pub struct DebandParams {
    pub iterations: usize,
    pub threshold: i64,
    pub radius: i64,
    pub grain: i64,
}

impl DebandParams {
    pub fn new(iterations: usize, threshold: i64, radius: i64, grain: i64) -> (r: DebandParams)
        ensures
            r == (DebandParams { iterations, threshold, radius, grain }),
    {
        DebandParams { iterations, threshold, radius, grain }
    }
}

impl Default for DebandParams {
    /// One iteration with threshold 4.0, radius 16.0 and grain 6.0.
    fn default() -> (r: DebandParams)
        ensures
            r == (DebandParams { iterations: 1, threshold: 4000, radius: 16000, grain: 6000 }),
    {
        DebandParams { iterations: 1, threshold: 4000, radius: 16000, grain: 6000 }
    }
}

} // verus!
