//! Observation records and the error type shared by the library.

use vstd::prelude::*;

verus! {

/// Timing facts about one observation, all in microseconds since the epoch
/// (except the durations, which are in microseconds).
#[derive(Clone, Copy, Debug, PartialEq, Eq, Structural)]
pub struct TemporalMetadata {
    /// When the observed event happened.
    pub event_time_us: i64,
    /// When the sensor captured it.
    pub capture_time_us: i64,
    /// When it was sent.
    pub transmission_time_us: i64,
    /// When the store received it.
    pub ingestion_time_us: i64,
    /// When processing finished.
    pub processing_time_us: i64,
    /// Clock precision.
    pub precision_us: i64,
    /// Estimated end-to-end latency.
    pub estimated_latency_us: i64,
    /// Whether the observation arrived after the stream watermark.
    pub is_late_arrival: bool,
    /// Clock jitter.
    pub jitter_us: i64,
}

/// One robot observation, reduced to the identifying and timing facts that
/// the reprocessing logic reads. The identifier is the 128-bit value of the
/// observation's UUID.
#[derive(Clone, Debug)]
pub struct Observation {
    pub id: u128,
    pub robot_id: String,
    pub timestamp: i64,
    pub temporal: TemporalMetadata,
}

/// Errors reported by the library.
#[derive(Clone, Debug)]
pub enum Error {
    /// A time-ordering precondition was violated.
    TimeError(String),
    /// An observation or index was invalid.
    InvalidObservation(String),
}

/// Result type of the library.
pub type Result<T> = std::result::Result<T, Error>;

/// Truncating (round-toward-zero) division, as integer `/` computes it.
pub open spec fn trunc_div(a: int, b: int) -> int
    recommends
        b > 0,
{
    if a >= 0 {
        a / b
    } else {
        -((-a) / b)
    }
}

} // verus!
