//! The overlap resolver: pure decisions about half-open time intervals.
//!
//! A booking occupies the half-open interval `[start, end)` in UTC seconds,
//! so a booking that ends exactly when another starts does not conflict with
//! it (back-to-back bookings are allowed).

use vstd::prelude::*;

verus! {

/// Two half-open intervals `[a_start, a_end)` and `[b_start, b_end)`
/// intersect exactly when each one starts before the other ends.
pub open spec fn overlaps(a_start: i64, a_end: i64, b_start: i64, b_end: i64) -> bool {
    a_start < b_end && b_start < a_end
}

/// A half-open time interval `[start, end)`.
#[derive(Clone, Copy, Debug, PartialEq, Eq, Structural)]
pub struct Interval {
    pub start: i64,
    pub end: i64,
}

impl Interval {
    /// A well-formed interval is non-empty.
    pub open spec fn wf(self) -> bool {
        self.start < self.end
    }

    pub open spec fn spec_overlaps(self, other: Interval) -> bool {
        overlaps(self.start, self.end, other.start, other.end)
    }

    /// Decides the half-open overlap test for two intervals.
    pub fn intersects(&self, other: &Interval) -> (r: bool)
        ensures
            r == self.spec_overlaps(*other),
    {
        self.start < other.end && other.start < self.end
    }
}

/// The overlap resolver's verdict on a candidate interval.
#[derive(Clone, Copy, Debug, PartialEq, Eq, Structural)]
pub enum Availability {
    Available,
    Conflict,
}

/// True when some interval of `existing` intersects the candidate.
pub open spec fn any_overlap(existing: Seq<Interval>, candidate: Interval) -> bool {
    exists|i: int| 0 <= i < existing.len() && existing[i].spec_overlaps(candidate)
}

/// The overlap resolver: given a candidate interval and the blocking
/// intervals already booked on the room, decides whether the candidate is
/// free. The candidate must be non-empty; an empty or reversed interval is
/// the caller's validation error, handled before the resolver runs.
pub fn resolve(existing: &Vec<Interval>, candidate: Interval) -> (r: Availability)
    requires
        candidate.wf(),
    ensures
        r == Availability::Conflict <==> any_overlap(existing@, candidate),
{
    let mut i: usize = 0;
    while i < existing.len()
        invariant
            0 <= i <= existing.len(),
            forall|j: int| 0 <= j < i ==> !existing@[j].spec_overlaps(candidate),
        decreases existing.len() - i,
    {
        if existing[i].intersects(&candidate) {
            return Availability::Conflict;
        }
        i = i + 1;
    }
    Availability::Available
}

/// Why the overlap resolver refused to answer.
#[derive(Clone, Copy, Debug, PartialEq, Eq, Structural)]
pub enum IntervalError {
    /// The candidate interval is empty or reversed.
    InvalidRange,
}

/// The overlap resolver's checked entry: an empty or reversed candidate is
/// rejected as such, a well-formed one gets the verdict of [`resolve`].
pub fn check_interval(existing: &Vec<Interval>, candidate: Interval) -> (r: Result<
    Availability,
    IntervalError,
>)
    ensures
        !candidate.wf() ==> r == Err::<Availability, IntervalError>(IntervalError::InvalidRange),
        candidate.wf() ==> (r matches Ok(v) && (v == Availability::Conflict <==> any_overlap(
            existing@,
            candidate,
        ))),
{
    if candidate.start < candidate.end {
        Ok(resolve(existing, candidate))
    } else {
        Err(IntervalError::InvalidRange)
    }
}

/// Back-to-back intervals never conflict: when one interval ends exactly
/// where the next begins, the half-open test reports no overlap.
pub proof fn lemma_back_to_back(first: Interval, second: Interval)
    requires
        first.wf(),
        second.wf(),
        first.end == second.start,
    ensures
        !first.spec_overlaps(second),
        !second.spec_overlaps(first),
{
}

} // verus!
