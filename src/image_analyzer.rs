//! Result records of screenshot analysis for calibration checks.

use vstd::prelude::*;

verus! {

/// A target found on a calibration screen.
#[derive(Debug, Clone, Copy)]
pub struct DetectedTarget {
    pub position: (u32, u32),
    pub is_hit: bool,
    pub hit_number: Option<u32>,
}

/// What one calibration screenshot shows: the targets found, the tap
/// counter, and the tap history as `(x, y, hit)` triples.
#[derive(Debug)]
pub struct CalibrationAnalysis {
    pub targets: Vec<DetectedTarget>,
    pub tapped_count: u32,
    pub total_targets: u32,
    pub tap_history: Vec<(u32, u32, bool)>,
}

} // verus!
