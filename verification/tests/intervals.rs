use room_booking_core::booking::{BookingStatusUpdate, InternalCreateBookingRequest};
use room_booking_core::booking_store::BookingStore;
use room_booking_core::interval::{check_interval, resolve, Availability, Interval, IntervalError};

fn span(start: i64, end: i64) -> Interval {
    Interval { start, end }
}

#[test]
fn resolver_reports_no_conflict_on_an_empty_room() {
    let verdict = resolve(&Vec::new(), span(900, 1000));
    assert_eq!(verdict, Availability::Available);
}

#[test]
fn resolver_detects_every_kind_of_overlap() {
    let existing = vec![span(900, 1000)];
    assert_eq!(resolve(&existing, span(930, 945)), Availability::Conflict);
    assert_eq!(resolve(&existing, span(850, 930)), Availability::Conflict);
    assert_eq!(resolve(&existing, span(950, 1100)), Availability::Conflict);
    assert_eq!(resolve(&existing, span(800, 1100)), Availability::Conflict);
}

#[test]
fn resolver_allows_adjacent_intervals() {
    let existing = vec![span(900, 1000)];
    assert_eq!(resolve(&existing, span(1000, 1100)), Availability::Available);
    assert_eq!(resolve(&existing, span(800, 900)), Availability::Available);
}

#[test]
fn checked_resolver_rejects_bad_ranges() {
    let existing = vec![span(900, 1000)];
    assert_eq!(check_interval(&existing, span(1000, 1000)), Err(IntervalError::InvalidRange));
    assert_eq!(check_interval(&existing, span(1100, 1000)), Err(IntervalError::InvalidRange));
    assert_eq!(check_interval(&existing, span(950, 1050)), Ok(Availability::Conflict));
    assert_eq!(check_interval(&existing, span(1000, 1050)), Ok(Availability::Available));
}

#[test]
fn interval_intersection_is_symmetric() {
    let a = span(900, 1000);
    let b = span(950, 1050);
    let c = span(1000, 1100);
    assert!(a.intersects(&b));
    assert!(b.intersects(&a));
    assert!(!a.intersects(&c));
    assert!(!c.intersects(&a));
}

fn store_with_three_bookings() -> BookingStore {
    let mut store = BookingStore::new();
    store.insert_booking(
        InternalCreateBookingRequest { room_id: 1, user_id: 7, start_time: 900, end_time: 1000 },
        BookingStatusUpdate::Confirmed,
        10,
    );
    store.insert_booking(
        InternalCreateBookingRequest { room_id: 2, user_id: 7, start_time: 900, end_time: 1000 },
        BookingStatusUpdate::Confirmed,
        20,
    );
    store.insert_booking(
        InternalCreateBookingRequest { room_id: 1, user_id: 8, start_time: 1000, end_time: 1100 },
        BookingStatusUpdate::Pending,
        30,
    );
    store
}

#[test]
fn blocking_intervals_list_only_the_rooms_blockers() {
    let mut store = store_with_three_bookings();
    let intervals = store.blocking_intervals(1);
    assert_eq!(intervals, vec![span(900, 1000), span(1000, 1100)]);

    store.cancel_booking(1, 7, 40);
    let after_cancel = store.blocking_intervals(1);
    assert_eq!(after_cancel, vec![span(1000, 1100)]);
}

#[test]
fn find_overlapping_can_exclude_a_booking() {
    let store = store_with_three_bookings();
    let all = store.find_overlapping(1, 900, 1100, None);
    assert_eq!(all.len(), 2);
    let without_first = store.find_overlapping(1, 900, 1100, Some(1));
    assert_eq!(without_first.len(), 1);
    assert_eq!(without_first[0].id, 3);
}

#[test]
fn booking_lookup_sees_only_live_rows() {
    let mut store = store_with_three_bookings();
    assert_eq!(store.get_booking_by_id(2).unwrap().room_id, 2);
    assert!(store.get_booking_by_id(9).is_none());
    store.cancel_booking(2, 7, 50);
    assert!(store.get_booking_by_id(2).is_none());
}

#[test]
fn has_conflict_agrees_with_the_resolver() {
    let store = store_with_three_bookings();
    assert!(store.has_conflict(1, 950, 1050));
    assert!(!store.has_conflict(3, 950, 1050));
    assert!(!store.has_conflict(1, 1100, 1200));
}
