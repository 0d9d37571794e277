//! The failures that the library reports.
use vstd::prelude::*;

verus! {

/// Why an operation was refused.
///
/// Every failure is deterministic: the same inputs fail the same way again.
#[derive(Clone, Copy, PartialEq, Eq, Structural, Debug)]
pub enum RatingError {
    /// A rating period must last a positive amount of time.
    ZeroPeriodDuration,
    /// A time lies before the instant it is measured from (a rating's last update, or the
    /// start of the engine's current rating period).
    TemporalInversion,
    /// A player handle that the engine never handed out.
    UnknownPlayer,
}

} // verus!
