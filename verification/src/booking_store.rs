//! The booking store: owns the reservation records.
//!
//! Records are kept in creation order and never removed; cancellation is a
//! soft delete. The store does structural bookkeeping only — interval
//! validation and conflict decisions belong to the lifecycle controller.

use vstd::prelude::*;

use crate::booking::{blocks, Booking, BookingStatusUpdate, InternalCreateBookingRequest};
use crate::interval::{any_overlap, resolve, Availability, Interval};

verus! {

/// `b` blocks the candidate interval, unless it is the booking a reschedule
/// operation asked to ignore.
pub open spec fn blocks_excluding(
    b: Booking,
    room_id: i32,
    start: i64,
    end: i64,
    exclude: Option<i32>,
) -> bool {
    &&& blocks(b, room_id, start, end)
    &&& match exclude {
        Some(x) => b.id != x,
        None => true,
    }
}

/// Some stored booking blocks the candidate interval on the room.
pub open spec fn spec_conflicts(s: Seq<Booking>, room_id: i32, start: i64, end: i64) -> bool {
    exists|i: int| 0 <= i < s.len() && blocks(#[trigger] s[i], room_id, start, end)
}

/// `b` is a blocking booking of this room.
pub open spec fn blocking_for_room(b: Booking, room_id: i32) -> bool {
    b.room_id == room_id && b.is_blocking()
}

/// The blocking intervals of a room answer exactly the conflict question:
/// a candidate interval intersects one of them exactly when some stored
/// booking blocks it. This ties the overlap resolver's verdict on the
/// store's interval listing to the store's own contents.
pub proof fn lemma_intervals_carry_conflicts(
    s: Seq<Booking>,
    room_id: i32,
    start: i64,
    end: i64,
)
    ensures
        any_overlap(
            s.filter(|b: Booking| blocking_for_room(b, room_id)).map_values(
                |b: Booking| b.spec_interval(),
            ),
            Interval { start, end },
        ) == spec_conflicts(s, room_id, start, end),
{
    let pred = |b: Booking| blocking_for_room(b, room_id);
    let filtered = s.filter(pred);
    let mapped = filtered.map_values(|b: Booking| b.spec_interval());
    let candidate = Interval { start, end };
    if any_overlap(mapped, candidate) {
        let k = choose|k: int| 0 <= k < mapped.len() && mapped[k].spec_overlaps(candidate);
        s.lemma_filter_pred(pred, k);
        assert(filtered.contains(filtered[k]));
        s.lemma_filter_contains_rev(pred, filtered[k]);
        let i = choose|i: int| 0 <= i < s.len() && s[i] == filtered[k];
        assert(blocks(s[i], room_id, start, end));
    }
    if spec_conflicts(s, room_id, start, end) {
        let i = choose|i: int| 0 <= i < s.len() && blocks(#[trigger] s[i], room_id, start, end);
        s.lemma_filter_contains(pred, i);
        let k = choose|k: int| 0 <= k < filtered.len() && filtered[k] == s[i];
        assert(mapped[k].spec_overlaps(candidate));
    }
}

/// Some blocking booking remains on the room, whatever its interval.
pub open spec fn spec_any_blocking(s: Seq<Booking>, room_id: i32) -> bool {
    exists|i: int|
        0 <= i < s.len() && (#[trigger] s[i]).room_id == room_id && s[i].is_blocking()
}

/// The booking `b` after cancellation at time `now`.
pub open spec fn cancelled_version(b: Booking, now: i64) -> Booking {
    Booking {
        status: BookingStatusUpdate::Cancelled,
        updated_at: now,
        deleted_at: Some(now),
        ..b
    }
}

/// The booking `b` after a status change to `status` at time `now`.
pub open spec fn restated_version(b: Booking, status: BookingStatusUpdate, now: i64) -> Booking {
    Booking { status, updated_at: now, ..b }
}

/// A freshly stored blocking booking is reported: after it is appended,
/// the overlap query for its own room and interval lists it. Together
/// with the lifecycle controller's contract this says a successful
/// creation is immediately visible to every later conflict check.
pub proof fn lemma_new_booking_reported(s: Seq<Booking>, b: Booking)
    requires
        b.start_time < b.end_time,
        b.is_blocking(),
    ensures
        s.push(b).filter(
            |x: Booking| blocks_excluding(x, b.room_id, b.start_time, b.end_time, None),
        ).contains(b),
{
    let pred = |x: Booking| blocks_excluding(x, b.room_id, b.start_time, b.end_time, None);
    s.lemma_filter_push(b, pred);
    assert(blocks(b, b.room_id, b.start_time, b.end_time));
    assert(s.push(b).filter(pred).last() == b);
}

pub struct BookingStore {
    pub bookings: Vec<Booking>,
}

impl BookingStore {
    /// Structural well-formedness: ids are assigned in insertion order
    /// starting at 1, and every record is well-formed.
    pub open spec fn wf(self) -> bool {
        forall|i: int|
            0 <= i < self.bookings@.len() ==> (#[trigger] self.bookings@[i]).id == i + 1
                && self.bookings@[i].wf()
    }

    /// A booking with this id exists, live or soft-deleted.
    pub open spec fn id_present(self, booking_id: i32) -> bool {
        1 <= booking_id && booking_id <= self.bookings@.len()
    }

    /// The row a cancellation for `(booking_id, user_id)` would hit: a live
    /// booking with that id, owned by that user.
    pub open spec fn cancel_hits(self, booking_id: i32, user_id: i32) -> bool {
        &&& 1 <= booking_id
        &&& booking_id <= self.bookings@.len()
        &&& self.bookings@[booking_id - 1].user_id == user_id
        &&& self.bookings@[booking_id - 1].is_live()
    }

    /// The row a status update for `booking_id` would hit: a live booking
    /// with that id.
    pub open spec fn update_hits(self, booking_id: i32) -> bool {
        &&& 1 <= booking_id
        &&& booking_id <= self.bookings@.len()
        &&& self.bookings@[booking_id - 1].is_live()
    }

    pub fn new() -> (r: BookingStore)
        ensures
            r.wf(),
            r.bookings@ == Seq::<Booking>::empty(),
    {
        let r = BookingStore { bookings: Vec::new() };
        proof {
            assert(r.bookings@ =~= Seq::<Booking>::empty());
        }
        r
    }

    /// Inserts a new reservation, assigning the next id and both
    /// timestamps. No validation happens here beyond the structural
    /// requirements; the lifecycle controller validates first.
    pub fn insert_booking(
        &mut self,
        request: InternalCreateBookingRequest,
        status: BookingStatusUpdate,
        now: i64,
    ) -> (b: Booking)
        requires
            old(self).wf(),
            old(self).bookings@.len() < i32::MAX as int,
            request.start_time < request.end_time,
            status != BookingStatusUpdate::Cancelled,
        ensures
            final(self).wf(),
            b == (Booking {
                id: (old(self).bookings@.len() + 1) as i32,
                room_id: request.room_id,
                user_id: request.user_id,
                start_time: request.start_time,
                end_time: request.end_time,
                status: status,
                created_at: now,
                updated_at: now,
                deleted_at: None,
            }),
            final(self).bookings@ == old(self).bookings@.push(b),
    {
        let id: i32 = self.bookings.len() as i32 + 1;
        let b = Booking {
            id,
            room_id: request.room_id,
            user_id: request.user_id,
            start_time: request.start_time,
            end_time: request.end_time,
            status,
            created_at: now,
            updated_at: now,
            deleted_at: None,
        };
        self.bookings.push(b);
        b
    }

    /// The intervals of every blocking booking of the room, in creation
    /// order: what the overlap resolver runs against.
    #[verifier::loop_isolation(false)]
    pub fn blocking_intervals(&self, room_id: i32) -> (r: Vec<Interval>)
        ensures
            r@ == self.bookings@.filter(|b: Booking| blocking_for_room(b, room_id)).map_values(
                |b: Booking| b.spec_interval(),
            ),
    {
        let ghost pred = |b: Booking| blocking_for_room(b, room_id);
        let ghost to_interval = |b: Booking| b.spec_interval();
        let mut out: Vec<Interval> = Vec::new();
        let mut i: usize = 0;
        proof {
            assert(self.bookings@.take(0) =~= Seq::<Booking>::empty());
            assert(out@ =~= Seq::<Booking>::empty().filter(pred).map_values(to_interval));
        }
        while i < self.bookings.len()
            invariant
                i <= self.bookings@.len(),
                out@ == self.bookings@.take(i as int).filter(pred).map_values(to_interval),
            decreases self.bookings@.len() - i,
        {
            let b = self.bookings[i];
            proof {
                self.bookings@.lemma_take_succ_push(i as int);
                self.bookings@.take(i as int).lemma_filter_push(self.bookings@[i as int], pred);
                if pred(self.bookings@[i as int]) {
                    assert(self.bookings@.take(i as int).filter(pred).push(
                        self.bookings@[i as int],
                    ).map_values(to_interval) =~= self.bookings@.take(i as int).filter(
                        pred,
                    ).map_values(to_interval).push(to_interval(self.bookings@[i as int])));
                }
            }
            if b.room_id == room_id && b.status != BookingStatusUpdate::Cancelled && b.status
                != BookingStatusUpdate::Completed {
                out.push(Interval { start: b.start_time, end: b.end_time });
            }
            i = i + 1;
        }
        proof {
            assert(self.bookings@.take(self.bookings@.len() as int) =~= self.bookings@);
        }
        out
    }

    /// Decides whether any stored booking blocks the candidate interval on
    /// the room, by handing the room's blocking intervals to the overlap
    /// resolver.
    pub fn has_conflict(&self, room_id: i32, start: i64, end: i64) -> (r: bool)
        requires
            start < end,
        ensures
            r == spec_conflicts(self.bookings@, room_id, start, end),
    {
        let existing = self.blocking_intervals(room_id);
        let candidate = Interval { start, end };
        proof {
            lemma_intervals_carry_conflicts(self.bookings@, room_id, start, end);
        }
        match resolve(&existing, candidate) {
            Availability::Conflict => true,
            Availability::Available => false,
        }
    }

    /// Decides whether any blocking booking remains on the room, whatever
    /// its interval.
    pub fn has_blocking(&self, room_id: i32) -> (r: bool)
        ensures
            r == spec_any_blocking(self.bookings@, room_id),
    {
        let mut i: usize = 0;
        while i < self.bookings.len()
            invariant
                i <= self.bookings@.len(),
                forall|j: int|
                    0 <= j < i ==> !((#[trigger] self.bookings@[j]).room_id == room_id
                        && self.bookings@[j].is_blocking()),
            decreases self.bookings@.len() - i,
        {
            let b = &self.bookings[i];
            if b.room_id == room_id && b.status != BookingStatusUpdate::Cancelled && b.status
                != BookingStatusUpdate::Completed {
                return true;
            }
            i = i + 1;
        }
        false
    }

    /// Returns every blocking booking on `room_id` whose interval
    /// intersects the half-open candidate `[start, end)`, in creation
    /// order. `exclude` lets a reschedule operation ignore itself.
    #[verifier::loop_isolation(false)]
    pub fn find_overlapping(
        &self,
        room_id: i32,
        start: i64,
        end: i64,
        exclude: Option<i32>,
    ) -> (r: Vec<Booking>)
        ensures
            r@ == self.bookings@.filter(
                |b: Booking| blocks_excluding(b, room_id, start, end, exclude),
            ),
    {
        let ghost pred = |b: Booking| blocks_excluding(b, room_id, start, end, exclude);
        let mut out: Vec<Booking> = Vec::new();
        let mut i: usize = 0;
        proof {
            assert(self.bookings@.take(0) =~= Seq::<Booking>::empty());
            assert(out@ =~= Seq::<Booking>::empty().filter(pred));
        }
        while i < self.bookings.len()
            invariant
                i <= self.bookings@.len(),
                out@ == self.bookings@.take(i as int).filter(pred),
            decreases self.bookings@.len() - i,
        {
            let b = self.bookings[i];
            proof {
                self.bookings@.lemma_take_succ_push(i as int);
                self.bookings@.take(i as int).lemma_filter_push(self.bookings@[i as int], pred);
            }
            let keep = b.room_id == room_id && b.status != BookingStatusUpdate::Cancelled
                && b.status != BookingStatusUpdate::Completed && b.start_time < end && start
                < b.end_time && match exclude {
                Some(x) => b.id != x,
                None => true,
            };
            if keep {
                out.push(b);
            }
            i = i + 1;
        }
        proof {
            assert(self.bookings@.take(self.bookings@.len() as int) =~= self.bookings@);
        }
        out
    }

    /// Looks a live booking up by id; soft-deleted bookings are invisible.
    pub fn get_booking_by_id(&self, booking_id: i32) -> (r: Option<Booking>)
        requires
            self.wf(),
        ensures
            match r {
                Some(b) => 1 <= booking_id && booking_id <= self.bookings@.len() && b
                    == self.bookings@[booking_id - 1] && b.is_live(),
                None => forall|i: int|
                    0 <= i < self.bookings@.len() ==> !((#[trigger] self.bookings@[i]).id
                        == booking_id && self.bookings@[i].is_live()),
            },
    {
        if booking_id >= 1 && (booking_id as usize) <= self.bookings.len() {
            let b = self.bookings[booking_id as usize - 1];
            if b.deleted_at.is_none() {
                Some(b)
            } else {
                None
            }
        } else {
            None
        }
    }

    /// Cancels the booking as a soft delete, but only when the row exists,
    /// is still live, and belongs to `user_id` — so one user cannot cancel
    /// another user's booking. Returns whether a row changed.
    pub fn cancel_booking(&mut self, booking_id: i32, user_id: i32, now: i64) -> (r: bool)
        requires
            old(self).wf(),
        ensures
            final(self).wf(),
            old(self).cancel_hits(booking_id, user_id) ==> r && final(self).bookings@ == old(
                self,
            ).bookings@.update(
                booking_id - 1,
                cancelled_version(old(self).bookings@[booking_id - 1], now),
            ),
            !old(self).cancel_hits(booking_id, user_id) ==> !r && final(self).bookings@ == old(
                self,
            ).bookings@,
    {
        if booking_id >= 1 && (booking_id as usize) <= self.bookings.len() {
            let idx: usize = booking_id as usize - 1;
            let hit = self.bookings[idx].user_id == user_id && self.bookings[idx].deleted_at.is_none();
            if hit {
                let target = &mut self.bookings[idx];
                target.status = BookingStatusUpdate::Cancelled;
                target.updated_at = now;
                target.deleted_at = Some(now);
                return true;
            }
        }
        proof {
            assert(self.bookings@ =~= old(self).bookings@);
        }
        false
    }

    /// Applies a non-cancelling status change to a live booking, refreshing
    /// `updated_at`. Cancellation goes through [`Self::cancel_booking`],
    /// which also sets the tombstone. Whether the change respects the state
    /// machine is the lifecycle controller's decision, not the store's.
    pub fn update_status(
        &mut self,
        booking_id: i32,
        status: BookingStatusUpdate,
        now: i64,
    ) -> (r: bool)
        requires
            old(self).wf(),
            status != BookingStatusUpdate::Cancelled,
        ensures
            final(self).wf(),
            old(self).update_hits(booking_id) ==> r && final(self).bookings@ == old(
                self,
            ).bookings@.update(
                booking_id - 1,
                restated_version(old(self).bookings@[booking_id - 1], status, now),
            ),
            !old(self).update_hits(booking_id) ==> !r && final(self).bookings@ == old(
                self,
            ).bookings@,
    {
        if booking_id >= 1 && (booking_id as usize) <= self.bookings.len() {
            let idx: usize = booking_id as usize - 1;
            if self.bookings[idx].deleted_at.is_none() {
                let target = &mut self.bookings[idx];
                target.status = status;
                target.updated_at = now;
                return true;
            }
        }
        proof {
            assert(self.bookings@ =~= old(self).bookings@);
        }
        false
    }

    /// All live bookings of one user, newest first.
    #[verifier::loop_isolation(false)]
    pub fn get_user_bookings(&self, user_id: i32) -> (r: Vec<Booking>)
        ensures
            r@ == self.bookings@.filter(
                |b: Booking| b.is_live() && b.user_id == user_id,
            ).reverse(),
    {
        let ghost pred = |b: Booking| b.is_live() && b.user_id == user_id;
        let mut asc: Vec<Booking> = Vec::new();
        let mut i: usize = 0;
        proof {
            assert(self.bookings@.take(0) =~= Seq::<Booking>::empty());
            assert(asc@ =~= Seq::<Booking>::empty().filter(pred));
        }
        while i < self.bookings.len()
            invariant
                i <= self.bookings@.len(),
                asc@ == self.bookings@.take(i as int).filter(pred),
            decreases self.bookings@.len() - i,
        {
            let b = self.bookings[i];
            proof {
                self.bookings@.lemma_take_succ_push(i as int);
                self.bookings@.take(i as int).lemma_filter_push(self.bookings@[i as int], pred);
            }
            if b.deleted_at.is_none() && b.user_id == user_id {
                asc.push(b);
            }
            i = i + 1;
        }
        proof {
            assert(self.bookings@.take(self.bookings@.len() as int) =~= self.bookings@);
        }
        reversed(asc)
    }

    /// All live bookings, newest first.
    #[verifier::loop_isolation(false)]
    pub fn get_all_bookings(&self) -> (r: Vec<Booking>)
        ensures
            r@ == self.bookings@.filter(|b: Booking| b.is_live()).reverse(),
    {
        let ghost pred = |b: Booking| b.is_live();
        let mut asc: Vec<Booking> = Vec::new();
        let mut i: usize = 0;
        proof {
            assert(self.bookings@.take(0) =~= Seq::<Booking>::empty());
            assert(asc@ =~= Seq::<Booking>::empty().filter(pred));
        }
        while i < self.bookings.len()
            invariant
                i <= self.bookings@.len(),
                asc@ == self.bookings@.take(i as int).filter(pred),
            decreases self.bookings@.len() - i,
        {
            let b = self.bookings[i];
            proof {
                self.bookings@.lemma_take_succ_push(i as int);
                self.bookings@.take(i as int).lemma_filter_push(self.bookings@[i as int], pred);
            }
            if b.deleted_at.is_none() {
                asc.push(b);
            }
            i = i + 1;
        }
        proof {
            assert(self.bookings@.take(self.bookings@.len() as int) =~= self.bookings@);
        }
        reversed(asc)
    }
}

/// The input sequence in reverse order.
#[verifier::loop_isolation(false)]
fn reversed(v: Vec<Booking>) -> (r: Vec<Booking>)
    ensures
        r@ == v@.reverse(),
{
    let mut out: Vec<Booking> = Vec::new();
    let mut i: usize = v.len();
    proof {
        assert(v@.skip(v@.len() as int) =~= Seq::<Booking>::empty());
        assert(out@ =~= v@.skip(v@.len() as int).reverse());
    }
    while i > 0
        invariant
            i <= v@.len(),
            out@ == v@.skip(i as int).reverse(),
        decreases i,
    {
        i = i - 1;
        let b = v[i];
        out.push(b);
        proof {
            assert(out@ =~= v@.skip(i as int).reverse());
        }
    }
    proof {
        assert(v@.skip(0) =~= v@);
    }
    out
}

} // verus!
