//! Capture failures, one variant per user-distinguishable kind.

use vstd::prelude::*;

verus! {

/// Why a capture call failed. No failure is retried internally; each
/// operating-system failure maps to exactly one of these kinds and is
/// surfaced immediately, with the underlying message kept as context
/// where one exists.
#[derive(Debug, Clone, PartialEq, Eq)]
pub enum XCapError {
    /// A required geometry/style/composition query failed; fatal, no fallback.
    FactsUnavailable(String),
    /// Every applicable capture strategy declined or errored.
    AllStrategiesFailed,
    /// The bitmap readout reported zero rows transferred.
    ExtractionFailed(String),
    /// A byte count does not match `width * height * 4`, or a crop request
    /// exceeds its source; indicates a sizing bug upstream.
    BufferShapeInvalid,
    /// A wide string was not valid UTF-16.
    InvalidUtf16,
}

pub type XCapResult<T> = Result<T, XCapError>;

} // verus!
