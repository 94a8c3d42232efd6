//! The booking lifecycle controller.
//!
//! This is the one component allowed to write across the room registry and
//! the booking store, and it does so as a single atomic unit of work: a
//! create-booking request is validated, checked for conflicts against the
//! blocking bookings of the room, and only then does the reservation insert
//! and the room-status write happen — or neither does. Every error path
//! leaves the whole state exactly as it was.

use vstd::prelude::*;

use crate::booking::{
    blocks, no_overlap, transition_allowed, Booking, BookingStatusUpdate,
    InternalCreateBookingRequest,
};
use crate::booking_store::{
    cancelled_version, restated_version, spec_any_blocking, spec_conflicts, BookingStore,
};
use crate::clock::unix_now;
use crate::interval::overlaps;
use crate::room::RoomStatus;
use crate::room_registry::{with_status, RoomRegistry};

verus! {

/// Why a booking operation failed, one variant per user-visible cause, so
/// the transport layer can map each to its own status code.
#[derive(Clone, Copy, Debug, PartialEq, Eq, Structural)]
pub enum BookingServiceError {
    /// The request itself is malformed: an empty or reversed interval.
    InvalidInput,
    /// The room or booking is absent or soft-deleted.
    NotFound,
    /// A blocking booking overlaps the requested interval.
    Conflict,
    /// The caller neither owns the booking nor is an admin.
    Unauthorized,
    /// The requested status change is not a legal transition.
    InvalidTransition,
    /// The persistence layer refused a write; the unit of work rolled back.
    StorageFailure,
}

impl BookingServiceError {
    /// The display name of the error.
    pub fn message(&self) -> (r: &'static str)
        ensures
            *self == BookingServiceError::InvalidInput ==> r@ == "Invalid input"@,
            *self == BookingServiceError::NotFound ==> r@ == "Not found"@,
            *self == BookingServiceError::Conflict ==> r@ == "Conflict"@,
            *self == BookingServiceError::Unauthorized ==> r@ == "Unauthorized"@,
            *self == BookingServiceError::InvalidTransition ==> r@ == "Invalid transition"@,
            *self == BookingServiceError::StorageFailure ==> r@ == "Storage failure"@,
    {
        match self {
            BookingServiceError::InvalidInput => "Invalid input",
            BookingServiceError::NotFound => "Not found",
            BookingServiceError::Conflict => "Conflict",
            BookingServiceError::Unauthorized => "Unauthorized",
            BookingServiceError::InvalidTransition => "Invalid transition",
            BookingServiceError::StorageFailure => "Storage failure",
        }
    }

    /// The HTTP status code the transport layer reports for this error:
    /// bad input 400, missing authority 403, absence 404, scheduling and
    /// state-machine conflicts 409, storage trouble 500.
    pub fn http_status(&self) -> (r: u16)
        ensures
            *self == BookingServiceError::InvalidInput ==> r == 400,
            *self == BookingServiceError::Unauthorized ==> r == 403,
            *self == BookingServiceError::NotFound ==> r == 404,
            *self == BookingServiceError::Conflict ==> r == 409,
            *self == BookingServiceError::InvalidTransition ==> r == 409,
            *self == BookingServiceError::StorageFailure ==> r == 500,
    {
        match self {
            BookingServiceError::InvalidInput => 400,
            BookingServiceError::Unauthorized => 403,
            BookingServiceError::NotFound => 404,
            BookingServiceError::Conflict => 409,
            BookingServiceError::InvalidTransition => 409,
            BookingServiceError::StorageFailure => 500,
        }
    }
}

/// Appending a booking that conflicts with no stored blocking booking
/// keeps the scheduling invariant.
proof fn lemma_no_overlap_push(s: Seq<Booking>, b: Booking)
    requires
        no_overlap(s),
        forall|i: int|
            0 <= i < s.len() ==> !blocks(#[trigger] s[i], b.room_id, b.start_time, b.end_time),
    ensures
        no_overlap(s.push(b)),
{
    let t = s.push(b);
    assert forall|i: int, j: int|
        0 <= i < t.len() && 0 <= j < t.len() && i != j && #[trigger] t[i].is_blocking()
            && #[trigger] t[j].is_blocking() && t[i].room_id == t[j].room_id implies !overlaps(
        t[i].start_time,
        t[i].end_time,
        t[j].start_time,
        t[j].end_time,
    ) by {
        if i == s.len() as int {
            assert(!blocks(s[j], b.room_id, b.start_time, b.end_time));
        } else if j == s.len() as int {
            assert(!blocks(s[i], b.room_id, b.start_time, b.end_time));
        }
    }
}

/// Replacing a booking by a non-blocking one keeps the scheduling
/// invariant.
proof fn lemma_no_overlap_update_unblocked(s: Seq<Booking>, k: int, b: Booking)
    requires
        no_overlap(s),
        0 <= k < s.len(),
        !b.is_blocking(),
    ensures
        no_overlap(s.update(k, b)),
{
    let t = s.update(k, b);
    assert forall|i: int, j: int|
        0 <= i < t.len() && 0 <= j < t.len() && i != j && #[trigger] t[i].is_blocking()
            && #[trigger] t[j].is_blocking() && t[i].room_id == t[j].room_id implies !overlaps(
        t[i].start_time,
        t[i].end_time,
        t[j].start_time,
        t[j].end_time,
    ) by {
        assert(s[i].is_blocking() && s[j].is_blocking());
    }
}

/// Replacing a blocking booking by one on the same room and interval keeps
/// the scheduling invariant.
proof fn lemma_no_overlap_update_same_interval(s: Seq<Booking>, k: int, b: Booking)
    requires
        no_overlap(s),
        0 <= k < s.len(),
        s[k].is_blocking(),
        b.room_id == s[k].room_id,
        b.start_time == s[k].start_time,
        b.end_time == s[k].end_time,
    ensures
        no_overlap(s.update(k, b)),
{
    let t = s.update(k, b);
    assert forall|i: int, j: int|
        0 <= i < t.len() && 0 <= j < t.len() && i != j && #[trigger] t[i].is_blocking()
            && #[trigger] t[j].is_blocking() && t[i].room_id == t[j].room_id implies !overlaps(
        t[i].start_time,
        t[i].end_time,
        t[j].start_time,
        t[j].end_time,
    ) by {
        assert(s[i].is_blocking() && s[j].is_blocking());
        assert(s[i].room_id == s[j].room_id);
    }
}

/// The lifecycle controller: orchestrates the room registry, the booking
/// store and the overlap decision inside one atomic unit of work per
/// operation.
pub struct BookingService {
    pub rooms: RoomRegistry,
    pub bookings: BookingStore,
    /// The status a newly created booking starts in: `Pending` where a
    /// separate confirmation step exists, `Confirmed` where creation
    /// confirms immediately. A construction-time configuration decision.
    pub initial_status: BookingStatusUpdate,
}

impl BookingService {
    /// Both stores are structurally sound, no two blocking bookings on one
    /// room overlap, and the configured initial status is a non-terminal
    /// creation status.
    pub open spec fn wf(self) -> bool {
        &&& self.rooms.wf()
        &&& self.bookings.wf()
        &&& no_overlap(self.bookings.bookings@)
        &&& (self.initial_status == BookingStatusUpdate::Pending || self.initial_status
            == BookingStatusUpdate::Confirmed)
    }

    pub fn new(initial_status: BookingStatusUpdate) -> (r: BookingService)
        requires
            initial_status == BookingStatusUpdate::Pending || initial_status
                == BookingStatusUpdate::Confirmed,
        ensures
            r.wf(),
            r.rooms.rooms@.len() == 0,
            r.bookings.bookings@.len() == 0,
            r.initial_status == initial_status,
    {
        BookingService { rooms: RoomRegistry::new(), bookings: BookingStore::new(), initial_status }
    }

    /// The create-booking unit of work, with the persistence collaborator's
    /// answer to the room-status write passed in: `room_write_ok` is false
    /// when that write would fail after the reservation insert succeeded,
    /// and the contract shows the whole unit rolls back — no reservation
    /// without its room-status update is ever observable.
    pub fn create_booking_with_room_write(
        &mut self,
        request: InternalCreateBookingRequest,
        now: i64,
        room_write_ok: bool,
    ) -> (r: Result<Booking, BookingServiceError>)
        requires
            old(self).wf(),
        ensures
            final(self).wf(),
            final(self).initial_status == old(self).initial_status,
            !(request.start_time < request.end_time) ==> r == Err::<Booking, BookingServiceError>(
                BookingServiceError::InvalidInput,
            ) && *final(self) == *old(self),
            request.start_time < request.end_time && !old(self).rooms.room_visible(request.room_id)
                ==> r == Err::<Booking, BookingServiceError>(BookingServiceError::NotFound)
                && *final(self) == *old(self),
            request.start_time < request.end_time && old(self).rooms.room_visible(request.room_id)
                && spec_conflicts(
                old(self).bookings.bookings@,
                request.room_id,
                request.start_time,
                request.end_time,
            ) ==> r == Err::<Booking, BookingServiceError>(BookingServiceError::Conflict) && *final(self) == *old(self),
            request.start_time < request.end_time && old(self).rooms.room_visible(request.room_id)
                && !spec_conflicts(
                old(self).bookings.bookings@,
                request.room_id,
                request.start_time,
                request.end_time,
            ) && !(room_write_ok && old(self).bookings.bookings@.len() < i32::MAX as int) ==> r
                == Err::<Booking, BookingServiceError>(BookingServiceError::StorageFailure)
                && *final(self) == *old(self),
            request.start_time < request.end_time && old(self).rooms.room_visible(request.room_id)
                && !spec_conflicts(
                old(self).bookings.bookings@,
                request.room_id,
                request.start_time,
                request.end_time,
            ) && room_write_ok && old(self).bookings.bookings@.len() < i32::MAX as int ==> {
                let b = Booking {
                    id: (old(self).bookings.bookings@.len() + 1) as i32,
                    room_id: request.room_id,
                    user_id: request.user_id,
                    start_time: request.start_time,
                    end_time: request.end_time,
                    status: old(self).initial_status,
                    created_at: now,
                    updated_at: now,
                    deleted_at: None,
                };
                &&& r == Ok::<Booking, BookingServiceError>(b)
                &&& final(self).bookings.bookings@ == old(self).bookings.bookings@.push(b)
                &&& final(self).rooms.rooms@ == old(self).rooms.rooms@.update(
                    request.room_id - 1,
                    with_status(
                        old(self).rooms.rooms@[request.room_id - 1],
                        RoomStatus::Booked,
                        now,
                    ),
                )
                &&& spec_conflicts(
                    final(self).bookings.bookings@,
                    request.room_id,
                    request.start_time,
                    request.end_time,
                )
            },
    {
        if !(request.start_time < request.end_time) {
            return Err(BookingServiceError::InvalidInput);
        }
        if self.rooms.get_room_by_id(request.room_id).is_err() {
            return Err(BookingServiceError::NotFound);
        }
        if self.bookings.has_conflict(request.room_id, request.start_time, request.end_time) {
            return Err(BookingServiceError::Conflict);
        }
        if !room_write_ok || !(self.bookings.bookings.len() < i32::MAX as usize) {
            return Err(BookingServiceError::StorageFailure);
        }
        let b = self.bookings.insert_booking(request, self.initial_status, now);
        proof {
            lemma_no_overlap_push(old(self).bookings.bookings@, b);
            assert(self.bookings.bookings@[old(self).bookings.bookings@.len() as int] == b);
            assert(blocks(b, request.room_id, request.start_time, request.end_time));
        }
        let _ = self.rooms.update_room_status(request.room_id, RoomStatus::Booked, now);
        Ok(b)
    }

    /// Creates a booking at the given time: validates the interval, checks
    /// the room, runs the overlap resolver, and on success inserts the
    /// reservation and marks the room booked — all as one unit of work.
    pub fn create_booking_at(&mut self, request: InternalCreateBookingRequest, now: i64) -> (r:
        Result<Booking, BookingServiceError>)
        requires
            old(self).wf(),
        ensures
            final(self).wf(),
            final(self).initial_status == old(self).initial_status,
            !(request.start_time < request.end_time) ==> r == Err::<Booking, BookingServiceError>(
                BookingServiceError::InvalidInput,
            ) && *final(self) == *old(self),
            request.start_time < request.end_time && !old(self).rooms.room_visible(request.room_id)
                ==> r == Err::<Booking, BookingServiceError>(BookingServiceError::NotFound)
                && *final(self) == *old(self),
            request.start_time < request.end_time && old(self).rooms.room_visible(request.room_id)
                && spec_conflicts(
                old(self).bookings.bookings@,
                request.room_id,
                request.start_time,
                request.end_time,
            ) ==> r == Err::<Booking, BookingServiceError>(BookingServiceError::Conflict) && *final(self) == *old(self),
            request.start_time < request.end_time && old(self).rooms.room_visible(request.room_id)
                && !spec_conflicts(
                old(self).bookings.bookings@,
                request.room_id,
                request.start_time,
                request.end_time,
            ) && old(self).bookings.bookings@.len() >= i32::MAX as int ==> r == Err::<
                Booking,
                BookingServiceError,
            >(BookingServiceError::StorageFailure) && *final(self) == *old(self),
            request.start_time < request.end_time && old(self).rooms.room_visible(request.room_id)
                && !spec_conflicts(
                old(self).bookings.bookings@,
                request.room_id,
                request.start_time,
                request.end_time,
            ) && old(self).bookings.bookings@.len() < i32::MAX as int ==> {
                let b = Booking {
                    id: (old(self).bookings.bookings@.len() + 1) as i32,
                    room_id: request.room_id,
                    user_id: request.user_id,
                    start_time: request.start_time,
                    end_time: request.end_time,
                    status: old(self).initial_status,
                    created_at: now,
                    updated_at: now,
                    deleted_at: None,
                };
                &&& r == Ok::<Booking, BookingServiceError>(b)
                &&& final(self).bookings.bookings@ == old(self).bookings.bookings@.push(b)
                &&& final(self).rooms.rooms@ == old(self).rooms.rooms@.update(
                    request.room_id - 1,
                    with_status(
                        old(self).rooms.rooms@[request.room_id - 1],
                        RoomStatus::Booked,
                        now,
                    ),
                )
                &&& spec_conflicts(
                    final(self).bookings.bookings@,
                    request.room_id,
                    request.start_time,
                    request.end_time,
                )
            },
    {
        self.create_booking_with_room_write(request, now, true)
    }

    /// Creates a booking stamped with the current wall-clock time. Apart
    /// from the value of the timestamps, everything the timed variant
    /// promises holds here too.
    pub fn create_booking(&mut self, request: InternalCreateBookingRequest) -> (r: Result<
        Booking,
        BookingServiceError,
    >)
        requires
            old(self).wf(),
        ensures
            final(self).wf(),
            final(self).initial_status == old(self).initial_status,
            !(request.start_time < request.end_time) ==> r == Err::<Booking, BookingServiceError>(
                BookingServiceError::InvalidInput,
            ) && *final(self) == *old(self),
            request.start_time < request.end_time && !old(self).rooms.room_visible(request.room_id)
                ==> r == Err::<Booking, BookingServiceError>(BookingServiceError::NotFound)
                && *final(self) == *old(self),
            request.start_time < request.end_time && old(self).rooms.room_visible(request.room_id)
                && spec_conflicts(
                old(self).bookings.bookings@,
                request.room_id,
                request.start_time,
                request.end_time,
            ) ==> r == Err::<Booking, BookingServiceError>(BookingServiceError::Conflict) && *final(self) == *old(self),
            request.start_time < request.end_time && old(self).rooms.room_visible(request.room_id)
                && !spec_conflicts(
                old(self).bookings.bookings@,
                request.room_id,
                request.start_time,
                request.end_time,
            ) && old(self).bookings.bookings@.len() < i32::MAX as int ==> r is Ok,
            r matches Ok(b) ==> {
                &&& b == (Booking {
                    id: (old(self).bookings.bookings@.len() + 1) as i32,
                    room_id: request.room_id,
                    user_id: request.user_id,
                    start_time: request.start_time,
                    end_time: request.end_time,
                    status: old(self).initial_status,
                    created_at: b.created_at,
                    updated_at: b.created_at,
                    deleted_at: None,
                })
                &&& final(self).bookings.bookings@ == old(self).bookings.bookings@.push(b)
                &&& final(self).rooms.rooms@ == old(self).rooms.rooms@.update(
                    request.room_id - 1,
                    with_status(
                        old(self).rooms.rooms@[request.room_id - 1],
                        RoomStatus::Booked,
                        b.created_at,
                    ),
                )
                &&& spec_conflicts(
                    final(self).bookings.bookings@,
                    request.room_id,
                    request.start_time,
                    request.end_time,
                )
            },
    {
        let now = unix_now();
        self.create_booking_at(request, now)
    }

    /// Cancels a booking at the given time, as a soft delete.
    ///
    /// Only the booking's owner or an admin may cancel it. Cancelling an
    /// already-cancelled booking reports `false` and changes nothing.
    /// When the last blocking booking of a room goes away, the room's
    /// stored status returns to `available`.
    pub fn cancel_booking_at(
        &mut self,
        booking_id: i32,
        caller_user_id: i32,
        caller_is_admin: bool,
        now: i64,
    ) -> (r: Result<bool, BookingServiceError>)
        requires
            old(self).wf(),
        ensures
            final(self).wf(),
            final(self).initial_status == old(self).initial_status,
            !old(self).bookings.id_present(booking_id) ==> r == Err::<bool, BookingServiceError>(
                BookingServiceError::NotFound,
            ) && *final(self) == *old(self),
            old(self).bookings.id_present(booking_id) && !old(self).bookings.bookings@[booking_id
                - 1].is_live() ==> r == Ok::<bool, BookingServiceError>(false) && *final(self)
                == *old(self),
            old(self).bookings.id_present(booking_id) && old(self).bookings.bookings@[booking_id
                - 1].is_live() && !(caller_is_admin || old(self).bookings.bookings@[booking_id
                - 1].user_id == caller_user_id) ==> r == Err::<bool, BookingServiceError>(
                BookingServiceError::Unauthorized,
            ) && *final(self) == *old(self),
            old(self).bookings.id_present(booking_id) && old(self).bookings.bookings@[booking_id
                - 1].is_live() && (caller_is_admin || old(self).bookings.bookings@[booking_id
                - 1].user_id == caller_user_id) ==> {
                let prior = old(self).bookings.bookings@[booking_id - 1];
                let cancelled = cancelled_version(prior, now);
                let remaining = old(self).bookings.bookings@.update(booking_id - 1, cancelled);
                let release = old(self).rooms.id_present(prior.room_id) && !spec_any_blocking(
                    remaining,
                    prior.room_id,
                );
                &&& r == Ok::<bool, BookingServiceError>(true)
                &&& final(self).bookings.bookings@ == remaining
                &&& release ==> final(self).rooms.rooms@ == old(self).rooms.rooms@.update(
                    prior.room_id - 1,
                    with_status(
                        old(self).rooms.rooms@[prior.room_id - 1],
                        RoomStatus::Available,
                        now,
                    ),
                )
                &&& !release ==> final(self).rooms.rooms@ == old(self).rooms.rooms@
            },
    {
        if !(booking_id >= 1 && (booking_id as usize) <= self.bookings.bookings.len()) {
            return Err(BookingServiceError::NotFound);
        }
        let idx: usize = booking_id as usize - 1;
        let prior = self.bookings.bookings[idx];
        if prior.deleted_at.is_some() {
            return Ok(false);
        }
        if !(caller_is_admin || prior.user_id == caller_user_id) {
            return Err(BookingServiceError::Unauthorized);
        }
        let changed = self.bookings.cancel_booking(booking_id, prior.user_id, now);
        proof {
            lemma_no_overlap_update_unblocked(
                old(self).bookings.bookings@,
                booking_id - 1,
                cancelled_version(prior, now),
            );
        }
        if !self.bookings.has_blocking(prior.room_id) {
            let _ = self.rooms.update_room_status(prior.room_id, RoomStatus::Available, now);
        }
        Ok(changed)
    }

    /// Cancels a booking stamped with the current wall-clock time. Apart
    /// from the value of the timestamps, everything the timed variant
    /// promises holds here too.
    pub fn cancel_booking(
        &mut self,
        booking_id: i32,
        caller_user_id: i32,
        caller_is_admin: bool,
    ) -> (r: Result<bool, BookingServiceError>)
        requires
            old(self).wf(),
        ensures
            final(self).wf(),
            final(self).initial_status == old(self).initial_status,
            !old(self).bookings.id_present(booking_id) ==> r == Err::<bool, BookingServiceError>(
                BookingServiceError::NotFound,
            ) && *final(self) == *old(self),
            old(self).bookings.id_present(booking_id) && !old(self).bookings.bookings@[booking_id
                - 1].is_live() ==> r == Ok::<bool, BookingServiceError>(false) && *final(self)
                == *old(self),
            old(self).bookings.id_present(booking_id) && old(self).bookings.bookings@[booking_id
                - 1].is_live() && !(caller_is_admin || old(self).bookings.bookings@[booking_id
                - 1].user_id == caller_user_id) ==> r == Err::<bool, BookingServiceError>(
                BookingServiceError::Unauthorized,
            ) && *final(self) == *old(self),
            old(self).bookings.id_present(booking_id) && old(self).bookings.bookings@[booking_id
                - 1].is_live() && (caller_is_admin || old(self).bookings.bookings@[booking_id
                - 1].user_id == caller_user_id) ==> r == Ok::<bool, BookingServiceError>(true)
                && exists|t: i64|
                #![trigger cancelled_version(old(self).bookings.bookings@[booking_id - 1], t)]
                {
                    let prior = old(self).bookings.bookings@[booking_id - 1];
                    let remaining = old(self).bookings.bookings@.update(
                        booking_id - 1,
                        cancelled_version(prior, t),
                    );
                    let release = old(self).rooms.id_present(prior.room_id) && !spec_any_blocking(
                        remaining,
                        prior.room_id,
                    );
                    &&& final(self).bookings.bookings@ == remaining
                    &&& release ==> final(self).rooms.rooms@ == old(self).rooms.rooms@.update(
                        prior.room_id - 1,
                        with_status(
                            old(self).rooms.rooms@[prior.room_id - 1],
                            RoomStatus::Available,
                            t,
                        ),
                    )
                    &&& !release ==> final(self).rooms.rooms@ == old(self).rooms.rooms@
                },
    {
        let now = unix_now();
        let r = self.cancel_booking_at(booking_id, caller_user_id, caller_is_admin, now);
        proof {
            // `now` is the witness for the timestamp the contract leaves
            // open; naming the cancelled record at `now` lets the prover
            // instantiate it.
            assert(cancelled_version(old(self).bookings.bookings@[booking_id - 1], now).updated_at
                == now);
        }
        r
    }

    /// Applies a status transition to a live booking, enforcing the state
    /// machine: confirming a pending booking, completing a confirmed one,
    /// or cancelling any non-terminal one (a soft delete that also
    /// releases the room when no blocking booking remains). Every other
    /// change is an illegal transition.
    pub fn update_booking_status(
        &mut self,
        booking_id: i32,
        new_status: BookingStatusUpdate,
        now: i64,
    ) -> (r: Result<Booking, BookingServiceError>)
        requires
            old(self).wf(),
        ensures
            final(self).wf(),
            final(self).initial_status == old(self).initial_status,
            !old(self).bookings.id_present(booking_id) ==> r == Err::<Booking, BookingServiceError>(
                BookingServiceError::NotFound,
            ) && *final(self) == *old(self),
            old(self).bookings.id_present(booking_id) && !transition_allowed(
                old(self).bookings.bookings@[booking_id - 1].status,
                new_status,
            ) ==> r == Err::<Booking, BookingServiceError>(BookingServiceError::InvalidTransition)
                && *final(self) == *old(self),
            old(self).bookings.id_present(booking_id) && transition_allowed(
                old(self).bookings.bookings@[booking_id - 1].status,
                new_status,
            ) && new_status != BookingStatusUpdate::Cancelled ==> {
                let updated = restated_version(
                    old(self).bookings.bookings@[booking_id - 1],
                    new_status,
                    now,
                );
                &&& r == Ok::<Booking, BookingServiceError>(updated)
                &&& final(self).bookings.bookings@ == old(self).bookings.bookings@.update(
                    booking_id - 1,
                    updated,
                )
                &&& final(self).rooms.rooms@ == old(self).rooms.rooms@
            },
            old(self).bookings.id_present(booking_id) && transition_allowed(
                old(self).bookings.bookings@[booking_id - 1].status,
                new_status,
            ) && new_status == BookingStatusUpdate::Cancelled ==> {
                let prior = old(self).bookings.bookings@[booking_id - 1];
                let cancelled = cancelled_version(prior, now);
                let remaining = old(self).bookings.bookings@.update(booking_id - 1, cancelled);
                let release = old(self).rooms.id_present(prior.room_id) && !spec_any_blocking(
                    remaining,
                    prior.room_id,
                );
                &&& r == Ok::<Booking, BookingServiceError>(cancelled)
                &&& final(self).bookings.bookings@ == remaining
                &&& release ==> final(self).rooms.rooms@ == old(self).rooms.rooms@.update(
                    prior.room_id - 1,
                    with_status(
                        old(self).rooms.rooms@[prior.room_id - 1],
                        RoomStatus::Available,
                        now,
                    ),
                )
                &&& !release ==> final(self).rooms.rooms@ == old(self).rooms.rooms@
            },
    {
        if !(booking_id >= 1 && (booking_id as usize) <= self.bookings.bookings.len()) {
            return Err(BookingServiceError::NotFound);
        }
        let idx: usize = booking_id as usize - 1;
        let prior = self.bookings.bookings[idx];
        if !prior.status.can_transition_to(&new_status) {
            return Err(BookingServiceError::InvalidTransition);
        }
        if matches!(new_status, BookingStatusUpdate::Cancelled) {
            let _ = self.bookings.cancel_booking(booking_id, prior.user_id, now);
            proof {
                lemma_no_overlap_update_unblocked(
                    old(self).bookings.bookings@,
                    booking_id - 1,
                    cancelled_version(prior, now),
                );
            }
            if !self.bookings.has_blocking(prior.room_id) {
                let _ = self.rooms.update_room_status(prior.room_id, RoomStatus::Available, now);
            }
            Ok(Booking {
                status: BookingStatusUpdate::Cancelled,
                updated_at: now,
                deleted_at: Some(now),
                ..prior
            })
        } else {
            let _ = self.bookings.update_status(booking_id, new_status, now);
            proof {
                lemma_no_overlap_update_same_interval(
                    old(self).bookings.bookings@,
                    booking_id - 1,
                    restated_version(prior, new_status, now),
                );
            }
            Ok(Booking { status: new_status, updated_at: now, ..prior })
        }
    }

    /// All live bookings of one user, newest first.
    pub fn get_bookings_by_user_id(&self, user_id: i32) -> (r: Vec<Booking>)
        ensures
            r@ == self.bookings.bookings@.filter(
                |b: Booking| b.is_live() && b.user_id == user_id,
            ).reverse(),
    {
        self.bookings.get_user_bookings(user_id)
    }

    /// All live bookings, newest first.
    pub fn get_all_bookings(&self) -> (r: Vec<Booking>)
        ensures
            r@ == self.bookings.bookings@.filter(|b: Booking| b.is_live()).reverse(),
    {
        self.bookings.get_all_bookings()
    }
}

} // verus!
