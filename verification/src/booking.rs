//! Booking records and the booking status state machine.

use vstd::prelude::*;

use crate::interval::{overlaps, Interval};

verus! {

/// The closed set of booking states. A booking starts out `Pending` or
/// `Confirmed` (a configuration decision of the lifecycle controller),
/// and `Cancelled` and `Completed` are terminal.
#[derive(Clone, Copy, Debug, PartialEq, Eq, Structural)]
pub enum BookingStatusUpdate {
    Pending,
    Confirmed,
    Cancelled,
    Completed,
}

/// The transitions the booking state machine allows:
/// `Pending` may be confirmed, `Confirmed` may be completed, any
/// non-terminal state may be cancelled, and nothing ever returns to
/// `Pending` or leaves a terminal state.
pub open spec fn transition_allowed(from: BookingStatusUpdate, to: BookingStatusUpdate) -> bool {
    &&& !from.is_terminal()
    &&& match to {
        BookingStatusUpdate::Pending => false,
        BookingStatusUpdate::Confirmed => from == BookingStatusUpdate::Pending,
        BookingStatusUpdate::Completed => from == BookingStatusUpdate::Confirmed,
        BookingStatusUpdate::Cancelled => true,
    }
}

impl BookingStatusUpdate {
    /// Terminal states admit no further transition.
    pub open spec fn is_terminal(self) -> bool {
        self == BookingStatusUpdate::Cancelled || self == BookingStatusUpdate::Completed
    }

    /// Decides whether the state machine allows moving from `self` to `to`.
    pub fn can_transition_to(&self, to: &BookingStatusUpdate) -> (r: bool)
        ensures
            r == transition_allowed(*self, *to),
    {
        match (self, to) {
            (BookingStatusUpdate::Pending, BookingStatusUpdate::Confirmed) => true,
            (BookingStatusUpdate::Confirmed, BookingStatusUpdate::Completed) => true,
            (BookingStatusUpdate::Pending, BookingStatusUpdate::Cancelled) => true,
            (BookingStatusUpdate::Confirmed, BookingStatusUpdate::Cancelled) => true,
            _ => false,
        }
    }

    /// The display name of the state.
    pub fn as_str(&self) -> (r: &'static str)
        ensures
            *self == BookingStatusUpdate::Pending ==> r@ == "Pending"@,
            *self == BookingStatusUpdate::Confirmed ==> r@ == "Confirmed"@,
            *self == BookingStatusUpdate::Cancelled ==> r@ == "Cancelled"@,
            *self == BookingStatusUpdate::Completed ==> r@ == "Completed"@,
    {
        match self {
            BookingStatusUpdate::Pending => "Pending",
            BookingStatusUpdate::Confirmed => "Confirmed",
            BookingStatusUpdate::Cancelled => "Cancelled",
            BookingStatusUpdate::Completed => "Completed",
        }
    }
}

/// A reservation of one room for the half-open interval
/// `[start_time, end_time)`, with timestamps in UTC seconds.
/// Cancellation is a soft delete: the record keeps its history and
/// `deleted_at` carries the cancellation time.
#[derive(Clone, Copy, Debug)]
pub struct Booking {
    pub id: i32,
    pub room_id: i32,
    pub user_id: i32,
    pub start_time: i64,
    pub end_time: i64,
    pub status: BookingStatusUpdate,
    pub created_at: i64,
    pub updated_at: i64,
    pub deleted_at: Option<i64>,
}

impl Booking {
    /// Structural well-formedness: the interval is non-empty and the
    /// deletion tombstone is set exactly on cancelled bookings.
    pub open spec fn wf(self) -> bool {
        &&& self.start_time < self.end_time
        &&& (self.deleted_at is Some <==> self.status == BookingStatusUpdate::Cancelled)
    }

    /// A booking not soft-deleted.
    pub open spec fn is_live(self) -> bool {
        self.deleted_at is None
    }

    /// A blocking booking counts toward overlap checks: neither cancelled
    /// nor completed.
    pub open spec fn is_blocking(self) -> bool {
        self.status != BookingStatusUpdate::Cancelled && self.status
            != BookingStatusUpdate::Completed
    }

    /// The half-open interval the booking occupies.
    pub open spec fn spec_interval(self) -> Interval {
        Interval { start: self.start_time, end: self.end_time }
    }
}

/// `b` blocks the candidate interval `[start, end)` on room `room_id`.
pub open spec fn blocks(b: Booking, room_id: i32, start: i64, end: i64) -> bool {
    &&& b.room_id == room_id
    &&& b.is_blocking()
    &&& overlaps(b.start_time, b.end_time, start, end)
}

/// No two blocking bookings on the same room overlap: the central
/// scheduling invariant of the whole library.
pub open spec fn no_overlap(s: Seq<Booking>) -> bool {
    forall|i: int, j: int|
        0 <= i < s.len() && 0 <= j < s.len() && i != j && #[trigger] s[i].is_blocking()
            && #[trigger] s[j].is_blocking() && s[i].room_id == s[j].room_id ==> !overlaps(
            s[i].start_time,
            s[i].end_time,
            s[j].start_time,
            s[j].end_time,
        )
}

/// A cancelled booking never blocks, so a cancelled reservation cannot
/// surface again as a scheduling conflict.
pub proof fn lemma_cancelled_never_blocks(b: Booking, room_id: i32, start: i64, end: i64)
    requires
        b.status == BookingStatusUpdate::Cancelled,
    ensures
        !b.is_blocking(),
        !blocks(b, room_id, start, end),
{
}

/// A create-booking request as the lifecycle controller receives it: the
/// caller's identity comes from the verified identity assertion, never
/// from the client-supplied request body.
#[derive(Clone, Copy, Debug)]
pub struct InternalCreateBookingRequest {
    pub room_id: i32,
    pub user_id: i32,
    pub start_time: i64,
    pub end_time: i64,
}

} // verus!
