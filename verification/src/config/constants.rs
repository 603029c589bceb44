//! The fixed settings of the monitor.

use vstd::prelude::*;
use crate::detector::Score;

verus! {

/// Number of consecutive failed fetches after which a fetch gives up.
pub const MAX_RETRIES: u32 = 15;

/// Seconds between two attempts.
pub const RETRY_DELAY_SECONDS: u64 = 15;

/// Number of failures above which the print is paused.
pub const PRINT_FAILURE_THRESHOLD: u32 = 3;

/// Bit pattern of the confidence above which a detection raises an alert:
/// one half.
pub const ALERT_PROBABILITY_THRESHOLD_BITS: u32 = 0x3F00_0000;

/// Bit pattern of the acceptance thresholds that apply where none is
/// configured: three quarters.
pub const DEFAULT_THRESHOLD_BITS: u32 = 0x3F40_0000;

/// Where the model weights are downloaded from if they are not at hand.
pub const MODEL_WEIGHTS_URL: &'static str =
    "https://tsd-pub-static.s3.amazonaws.com/ml-models/model-weights-8be06cde4e.darknet";

/// The confidence above which a detection raises an alert.
pub fn alert_probability_threshold() -> (r: Score)
    ensures
        r.bits == ALERT_PROBABILITY_THRESHOLD_BITS,
{
    Score { bits: ALERT_PROBABILITY_THRESHOLD_BITS }
}

} // verus!
