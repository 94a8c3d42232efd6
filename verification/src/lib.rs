//! Core of a room-reservation backend: rooms, bookings, and the scheduling
//! rules that keep reservations for one room from overlapping.
//!
//! The heart of the library is the booking lifecycle: deciding whether a
//! requested half-open time interval is free on a room, inserting the
//! reservation and updating the room's derived status as one atomic unit,
//! and enforcing the booking state machine (pending, confirmed, cancelled,
//! completed) with soft deletes throughout.

pub mod admins;
pub mod auth;
pub mod booking;
pub mod booking_service;
pub mod booking_store;
mod clock;
pub mod crypt;
pub mod interval;
pub mod room;
pub mod room_registry;
pub mod users;
