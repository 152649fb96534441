//! The failures that the proof pipeline reports to its caller.

use vstd::prelude::*;

verus! {

/// Why a proof request was rejected.
///
/// The first three variants are input-validation failures and are raised
/// before any generator is built or any randomness is drawn; `Protocol`
/// means the underlying proof construction itself reported a failure and
/// the call was aborted without producing a partial buffer.
#[derive(Clone, Copy, Debug, PartialEq, Eq, Structural)]
pub enum RangeProofError {
    /// The witness vector and the blinding vector have different lengths.
    ShapeMismatch,
    /// A witness value does not fit in the configured bit-width.
    RangeViolation,
    /// The witness count cannot be padded to a supported aggregation size
    /// (it is zero, or above the configured maximum).
    AggregationSizeViolation,
    /// The underlying proof engine rejected the call; not caused by the
    /// witness data itself.
    Protocol,
}

} // verus!
