use room_booking_core::room::{parse_room_status, NewRoom, RoomError, RoomStatus, UpdateRoomRequest};
use room_booking_core::room_registry::RoomRegistry;

fn registry_with(names: &[&str]) -> RoomRegistry {
    let mut reg = RoomRegistry::new();
    for (i, name) in names.iter().enumerate() {
        reg.add_room(
            NewRoom { name: name.to_string(), status: RoomStatus::Available },
            100 + i as i64,
        )
        .expect("room is added");
    }
    reg
}

#[test]
fn add_room_assigns_sequential_ids() {
    let reg = registry_with(&["101", "102"]);
    assert_eq!(reg.rooms[0].id, 1);
    assert_eq!(reg.rooms[1].id, 2);
    assert_eq!(reg.rooms[0].name, "101");
}

#[test]
fn duplicate_room_name_is_refused() {
    let mut reg = registry_with(&["101"]);
    let r = reg.add_room(NewRoom { name: "101".to_string(), status: RoomStatus::Booked }, 200);
    assert_eq!(r.unwrap_err(), RoomError::DuplicateName);
    assert_eq!(reg.rooms.len(), 1);
}

#[test]
fn empty_room_name_is_refused() {
    let mut reg = RoomRegistry::new();
    let r = reg.add_room(NewRoom { name: String::new(), status: RoomStatus::Available }, 100);
    assert_eq!(r.unwrap_err(), RoomError::InvalidName);
}

#[test]
fn deleted_room_frees_its_name() {
    let mut reg = registry_with(&["101"]);
    reg.delete_room(1, 200).expect("delete");
    let again = reg
        .add_room(NewRoom { name: "101".to_string(), status: RoomStatus::Available }, 300)
        .expect("name is free again");
    assert_eq!(again.id, 2);
}

#[test]
fn get_room_by_id_sees_only_live_rooms() {
    let mut reg = registry_with(&["101"]);
    assert_eq!(reg.get_room_by_id(1).unwrap().name, "101");
    assert_eq!(reg.get_room_by_id(2).unwrap_err(), RoomError::NotFound);
    reg.delete_room(1, 200).expect("delete");
    assert_eq!(reg.get_room_by_id(1).unwrap_err(), RoomError::NotFound);
}

#[test]
fn delete_room_twice_reports_already_deleted() {
    let mut reg = registry_with(&["101"]);
    reg.delete_room(1, 200).expect("first delete");
    assert_eq!(reg.delete_room(1, 300).unwrap_err(), RoomError::AlreadyDeleted);
    assert_eq!(reg.delete_room(9, 300).unwrap_err(), RoomError::NotFound);
}

#[test]
fn update_room_applies_partial_changes() {
    let mut reg = registry_with(&["101"]);
    let updated = reg
        .update_room(
            1,
            UpdateRoomRequest { name: None, status: Some(RoomStatus::Booked) },
            500,
        )
        .expect("update");
    assert_eq!(updated.name, "101");
    assert!(matches!(updated.status, RoomStatus::Booked));
    assert_eq!(updated.updated_at, 500);

    let renamed = reg
        .update_room(1, UpdateRoomRequest { name: Some("201".to_string()), status: None }, 600)
        .expect("rename");
    assert_eq!(renamed.name, "201");
    assert!(matches!(renamed.status, RoomStatus::Booked));
}

#[test]
fn update_room_refuses_bad_names() {
    let mut reg = registry_with(&["101", "102"]);
    let empty = reg.update_room(1, UpdateRoomRequest { name: Some(String::new()), status: None }, 500);
    assert_eq!(empty.unwrap_err(), RoomError::InvalidName);
    let clash = reg.update_room(
        1,
        UpdateRoomRequest { name: Some("102".to_string()), status: None },
        500,
    );
    assert_eq!(clash.unwrap_err(), RoomError::DuplicateName);
    let missing = reg.update_room(9, UpdateRoomRequest { name: None, status: None }, 500);
    assert_eq!(missing.unwrap_err(), RoomError::NotFound);
}

#[test]
fn active_rooms_listing_filters_status_and_tombstones() {
    let mut reg = registry_with(&["101", "102", "103"]);
    reg.update_room(2, UpdateRoomRequest { name: None, status: Some(RoomStatus::Booked) }, 500)
        .expect("mark booked");
    reg.delete_room(3, 600).expect("delete");
    let active = reg.get_all_active_rooms();
    assert_eq!(active.len(), 1);
    assert_eq!(active[0].name, "101");

    let all = reg.get_all_room();
    assert_eq!(all.len(), 3);
}

#[test]
fn room_status_names() {
    assert_eq!(RoomStatus::Available.as_str(), "available");
    assert_eq!(RoomStatus::Booked.as_str(), "booked");
}

#[test]
fn room_status_parsing_rejects_free_text() {
    assert_eq!(parse_room_status(b"available"), Some(RoomStatus::Available));
    assert_eq!(parse_room_status(b"booked"), Some(RoomStatus::Booked));
    assert_eq!(parse_room_status(b"Available"), None);
    assert_eq!(parse_room_status(b"open"), None);
    assert_eq!(parse_room_status(b""), None);
}

#[test]
fn room_error_messages() {
    assert_eq!(RoomError::InvalidName.message(), "Room name must not be empty");
    assert_eq!(RoomError::DuplicateName.message(), "Room name already taken");
    assert_eq!(RoomError::NotFound.message(), "Room not found");
    assert_eq!(RoomError::AlreadyDeleted.message(), "Room already deleted");
}
