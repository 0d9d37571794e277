//! Time bookkeeping: instants and elapsed rating periods.
use vstd::prelude::*;

use crate::error::RatingError;

verus! {

/// A point in time, in nanoseconds since the Unix epoch.
pub type Timestamp = u64;

/// An amount of time measured in rating periods: `elapsed / period` periods, both in
/// nanoseconds.
///
/// The quotient is a real number; it is kept as the exact pair so that whole periods and the
/// fraction of the current one are computed without rounding.
#[derive(Clone, Copy, PartialEq, Eq, Structural, Debug)]
pub struct ElapsedPeriods {
    /// Time elapsed, in nanoseconds.
    pub elapsed: u64,
    /// Duration of one rating period, in nanoseconds.
    pub period: u64,
}

impl ElapsedPeriods {
    /// A usable measure: the period lasts a positive time.
    pub open spec fn wf(self) -> bool {
        self.period > 0
    }

    /// Exactly one full rating period of the given duration.
    pub fn one(period: u64) -> (r: ElapsedPeriods)
        ensures
            r.elapsed == period,
            r.period == period,
    {
        ElapsedPeriods { elapsed: period, period }
    }

    /// The number of whole rating periods elapsed, rounded down.
    pub fn whole(&self) -> (r: u64)
        requires
            self.wf(),
        ensures
            r == self.elapsed / self.period,
    {
        self.elapsed / self.period
    }

    /// What is left of the elapsed time once the whole periods are taken out; always less
    /// than one period.
    pub fn fraction(&self) -> (r: ElapsedPeriods)
        requires
            self.wf(),
        ensures
            r.elapsed == self.elapsed % self.period,
            r.period == self.period,
            r.elapsed < r.period,
    {
        ElapsedPeriods { elapsed: self.elapsed % self.period, period: self.period }
    }
}

/// The rating periods elapsed from `from` to `to`, for periods of `period` nanoseconds, or
/// why there is no such measure.
pub open spec fn periods_between(from: Timestamp, to: Timestamp, period: u64) -> Result<
    ElapsedPeriods,
    RatingError,
> {
    if period == 0 {
        Err(RatingError::ZeroPeriodDuration)
    } else if to < from {
        Err(RatingError::TemporalInversion)
    } else {
        Ok(ElapsedPeriods { elapsed: (to - from) as u64, period })
    }
}

/// The rating periods elapsed from `from` to `to`, for periods of `period` nanoseconds.
///
/// Fails with [`RatingError::ZeroPeriodDuration`] if `period` is zero, and with
/// [`RatingError::TemporalInversion`] if `to` lies before `from`: time is never clamped.
pub fn elapsed_between(from: Timestamp, to: Timestamp, period: u64) -> (r: Result<
    ElapsedPeriods,
    RatingError,
>)
    ensures
        r == periods_between(from, to, period),
{
    if period == 0 {
        Err(RatingError::ZeroPeriodDuration)
    } else if to < from {
        Err(RatingError::TemporalInversion)
    } else {
        Ok(ElapsedPeriods { elapsed: to - from, period })
    }
}

} // verus!
