//! The room registry: owns the room records and their lifecycle status.

use vstd::prelude::*;

use crate::room::{AddRoomRequest, NewRoom, Room, RoomError, RoomModel, RoomStatus, UpdateRoomRequest};

verus! {

/// The room `r` with its status flag replaced at time `now`.
pub open spec fn with_status(r: Room, status: RoomStatus, now: i64) -> Room {
    Room { status, updated_at: now, ..r }
}

pub struct RoomRegistry {
    pub rooms: Vec<Room>,
}

impl RoomRegistry {
    /// Structural well-formedness: ids are assigned in insertion order
    /// starting at 1, every name is non-empty, and no two live rooms share
    /// a name.
    pub open spec fn wf(self) -> bool {
        &&& forall|i: int|
            0 <= i < self.rooms@.len() ==> (#[trigger] self.rooms@[i]).id == i + 1
                && self.rooms@[i].name@.len() > 0
        &&& forall|i: int, j: int|
            0 <= i < self.rooms@.len() && 0 <= j < self.rooms@.len() && i != j && (
            #[trigger] self.rooms@[i]).is_live() && (#[trigger] self.rooms@[j]).is_live()
                ==> self.rooms@[i].name@ != self.rooms@[j].name@
    }

    /// Some live room carries this name.
    pub open spec fn name_taken(self, name: Seq<char>) -> bool {
        exists|i: int|
            0 <= i < self.rooms@.len() && (#[trigger] self.rooms@[i]).is_live()
                && self.rooms@[i].name@ == name
    }

    /// Some live room other than the one at `idx` carries this name.
    pub open spec fn name_taken_except(self, name: Seq<char>, idx: int) -> bool {
        exists|i: int|
            0 <= i < self.rooms@.len() && i != idx && (#[trigger] self.rooms@[i]).is_live()
                && self.rooms@[i].name@ == name
    }

    /// A room with this id exists, deleted or not.
    pub open spec fn id_present(self, room_id: i32) -> bool {
        1 <= room_id && room_id <= self.rooms@.len()
    }

    /// A live room with this id exists: this is what lookups and the
    /// lifecycle controller see.
    pub open spec fn room_visible(self, room_id: i32) -> bool {
        self.id_present(room_id) && self.rooms@[room_id - 1].is_live()
    }

    pub fn new() -> (r: RoomRegistry)
        ensures
            r.wf(),
            r.rooms@ == Seq::<Room>::empty(),
    {
        let r = RoomRegistry { rooms: Vec::new() };
        proof {
            assert(r.rooms@ =~= Seq::<Room>::empty());
        }
        r
    }

    /// Adds a room to the inventory, assigning the next id and both
    /// timestamps. Fails when the name is empty or when a live room
    /// already carries it.
    #[verifier::loop_isolation(false)]
    pub fn add_room(&mut self, new_room: NewRoom, now: i64) -> (r: Result<Room, RoomError>)
        requires
            old(self).wf(),
            old(self).rooms@.len() < i32::MAX as int,
        ensures
            final(self).wf(),
            new_room.name@.len() == 0 ==> r == Err::<Room, RoomError>(RoomError::InvalidName)
                && final(self).rooms@ == old(self).rooms@,
            new_room.name@.len() > 0 && old(self).name_taken(new_room.name@) ==> r == Err::<
                Room,
                RoomError,
            >(RoomError::DuplicateName) && final(self).rooms@ == old(self).rooms@,
            new_room.name@.len() > 0 && !old(self).name_taken(new_room.name@) ==> {
                &&& final(self).rooms@ == old(self).rooms@.push(
                    Room {
                        id: (old(self).rooms@.len() + 1) as i32,
                        name: new_room.name,
                        status: new_room.status,
                        created_at: now,
                        updated_at: now,
                        deleted_at: None,
                    },
                )
                &&& r matches Ok(room) && room@ == final(self).rooms@.last()@
            },
    {
        if new_room.name.as_str().is_empty() {
            return Err(RoomError::InvalidName);
        }
        let mut i: usize = 0;
        while i < self.rooms.len()
            invariant
                i <= self.rooms@.len(),
                forall|j: int|
                    0 <= j < i ==> !((#[trigger] self.rooms@[j]).is_live() && self.rooms@[j].name@
                        == new_room.name@),
            decreases self.rooms@.len() - i,
        {
            if self.rooms[i].deleted_at.is_none() && self.rooms[i].name == new_room.name {
                return Err(RoomError::DuplicateName);
            }
            i = i + 1;
        }
        let id: i32 = self.rooms.len() as i32 + 1;
        let room = Room {
            id,
            name: new_room.name,
            status: new_room.status,
            created_at: now,
            updated_at: now,
            deleted_at: None,
        };
        let copy = room.clone();
        self.rooms.push(room);
        Ok(copy)
    }

    /// Adds a room from the admin request shape.
    pub fn add_room_request(&mut self, request: AddRoomRequest, now: i64) -> (r: Result<
        Room,
        RoomError,
    >)
        requires
            old(self).wf(),
            old(self).rooms@.len() < i32::MAX as int,
        ensures
            final(self).wf(),
            request.name@.len() == 0 ==> r == Err::<Room, RoomError>(RoomError::InvalidName)
                && final(self).rooms@ == old(self).rooms@,
            request.name@.len() > 0 && old(self).name_taken(request.name@) ==> r == Err::<
                Room,
                RoomError,
            >(RoomError::DuplicateName) && final(self).rooms@ == old(self).rooms@,
            request.name@.len() > 0 && !old(self).name_taken(request.name@) ==> {
                &&& final(self).rooms@ == old(self).rooms@.push(
                    Room {
                        id: (old(self).rooms@.len() + 1) as i32,
                        name: request.name,
                        status: request.status,
                        created_at: now,
                        updated_at: now,
                        deleted_at: None,
                    },
                )
                &&& r matches Ok(room) && room@ == final(self).rooms@.last()@
            },
    {
        self.add_room(NewRoom { name: request.name, status: request.status }, now)
    }

    /// Looks a live room up by id; soft-deleted rooms are invisible.
    pub fn get_room_by_id(&self, room_id: i32) -> (r: Result<Room, RoomError>)
        requires
            self.wf(),
        ensures
            match r {
                Ok(room) => self.room_visible(room_id) && room@ == self.rooms@[room_id - 1]@,
                Err(e) => e == RoomError::NotFound && !self.room_visible(room_id),
            },
    {
        if room_id >= 1 && (room_id as usize) <= self.rooms.len() {
            let room = &self.rooms[room_id as usize - 1];
            if room.deleted_at.is_none() {
                return Ok(room.clone());
            }
        }
        Err(RoomError::NotFound)
    }

    /// Every room of the inventory, deleted ones included.
    pub fn get_all_room(&self) -> (r: Vec<Room>)
        ensures
            r.deep_view() == self.rooms.deep_view(),
    {
        let r = self.rooms.clone();
        proof {
            assert(r.deep_view() =~= self.rooms.deep_view());
        }
        r
    }

    /// Every live room whose stored status is `available`.
    #[verifier::loop_isolation(false)]
    pub fn get_all_active_rooms(&self) -> (r: Vec<Room>)
        ensures
            r.deep_view() == self.rooms.deep_view().filter(
                |m: RoomModel| m.is_live() && m.status == RoomStatus::Available,
            ),
    {
        let ghost pred = |m: RoomModel| m.is_live() && m.status == RoomStatus::Available;
        let ghost models = self.rooms.deep_view();
        let mut out: Vec<Room> = Vec::new();
        let mut i: usize = 0;
        proof {
            assert(models.take(0) =~= Seq::<RoomModel>::empty());
            assert(out.deep_view() =~= Seq::<RoomModel>::empty().filter(pred));
        }
        while i < self.rooms.len()
            invariant
                i <= self.rooms@.len(),
                models == self.rooms.deep_view(),
                out.deep_view() == models.take(i as int).filter(pred),
            decreases self.rooms@.len() - i,
        {
            let room = &self.rooms[i];
            proof {
                models.lemma_take_succ_push(i as int);
                models.take(i as int).lemma_filter_push(models[i as int], pred);
            }
            if room.deleted_at.is_none() && room.status == RoomStatus::Available {
                let ghost before = out.deep_view();
                out.push(room.clone());
                proof {
                    assert(out.deep_view() =~= before.push(models[i as int]));
                }
            }
            i = i + 1;
        }
        proof {
            assert(models.take(models.len() as int) =~= models);
        }
        out
    }

    /// Applies a partial update to the room with this id, refreshing
    /// `updated_at`. A new name must be non-empty and must not collide
    /// with another live room's name.
    #[verifier::loop_isolation(false)]
    pub fn update_room(&mut self, room_id: i32, changes: UpdateRoomRequest, now: i64) -> (r: Result<
        Room,
        RoomError,
    >)
        requires
            old(self).wf(),
        ensures
            final(self).wf(),
            !old(self).id_present(room_id) ==> r == Err::<Room, RoomError>(RoomError::NotFound)
                && final(self).rooms@ == old(self).rooms@,
            old(self).id_present(room_id) && (changes.name matches Some(n) && n@.len() == 0) ==> r
                == Err::<Room, RoomError>(RoomError::InvalidName) && final(self).rooms@ == old(
                self,
            ).rooms@,
            old(self).id_present(room_id) && (changes.name matches Some(n) && n@.len() > 0
                && old(self).rooms@[room_id - 1].is_live() && old(self).name_taken_except(
                n@,
                room_id - 1,
            )) ==> r == Err::<Room, RoomError>(RoomError::DuplicateName) && final(self).rooms@
                == old(self).rooms@,
            ({
                let prior = old(self).rooms@[room_id - 1];
                let updated = Room {
                    name: match changes.name {
                        Some(n) => n,
                        None => prior.name,
                    },
                    status: match changes.status {
                        Some(s) => s,
                        None => prior.status,
                    },
                    updated_at: now,
                    ..prior
                };
                old(self).id_present(room_id) && (changes.name matches Some(n) ==> n@.len() > 0
                    && !(prior.is_live() && old(self).name_taken_except(n@, room_id - 1))) ==> {
                    &&& final(self).rooms@ == old(self).rooms@.update(room_id - 1, updated)
                    &&& r matches Ok(room) && room@ == updated@
                }
            }),
    {
        if !(room_id >= 1 && (room_id as usize) <= self.rooms.len()) {
            return Err(RoomError::NotFound);
        }
        let idx: usize = room_id as usize - 1;
        if let Some(n) = &changes.name {
            if n.as_str().is_empty() {
                return Err(RoomError::InvalidName);
            }
            if self.rooms[idx].deleted_at.is_none() {
                let mut i: usize = 0;
                while i < self.rooms.len()
                    invariant
                        i <= self.rooms@.len(),
                        idx == room_id - 1,
                        forall|j: int|
                            0 <= j < i && j != idx ==> !((#[trigger] self.rooms@[j]).is_live()
                                && self.rooms@[j].name@ == n@),
                    decreases self.rooms@.len() - i,
                {
                    if i != idx && self.rooms[i].deleted_at.is_none() && self.rooms[i].name == *n {
                        return Err(RoomError::DuplicateName);
                    }
                    i = i + 1;
                }
            }
        }
        let target = &mut self.rooms[idx];
        match changes.name {
            Some(n) => {
                target.name = n;
            },
            None => {},
        }
        match changes.status {
            Some(s) => {
                target.status = s;
            },
            None => {},
        }
        target.updated_at = now;
        Ok(self.rooms[idx].clone())
    }

    /// Soft-deletes the room: sets the tombstone and refreshes
    /// `updated_at`, leaving bookings untouched.
    pub fn delete_room(&mut self, room_id: i32, now: i64) -> (r: Result<Room, RoomError>)
        requires
            old(self).wf(),
        ensures
            final(self).wf(),
            !old(self).id_present(room_id) ==> r == Err::<Room, RoomError>(RoomError::NotFound)
                && final(self).rooms@ == old(self).rooms@,
            old(self).id_present(room_id) && !old(self).rooms@[room_id - 1].is_live() ==> r == Err::<
                Room,
                RoomError,
            >(RoomError::AlreadyDeleted) && final(self).rooms@ == old(self).rooms@,
            old(self).room_visible(room_id) ==> {
                let updated = Room {
                    updated_at: now,
                    deleted_at: Some(now),
                    ..old(self).rooms@[room_id - 1]
                };
                &&& final(self).rooms@ == old(self).rooms@.update(room_id - 1, updated)
                &&& r matches Ok(room) && room@ == updated@
            },
    {
        if !(room_id >= 1 && (room_id as usize) <= self.rooms.len()) {
            return Err(RoomError::NotFound);
        }
        let idx: usize = room_id as usize - 1;
        if self.rooms[idx].deleted_at.is_some() {
            return Err(RoomError::AlreadyDeleted);
        }
        let target = &mut self.rooms[idx];
        target.updated_at = now;
        target.deleted_at = Some(now);
        Ok(self.rooms[idx].clone())
    }

    /// Replaces the stored status flag of the room with this id. Reserved
    /// for the lifecycle controller, which calls it inside its atomic unit
    /// of work; not part of the public surface.
    pub(crate) fn update_room_status(&mut self, room_id: i32, status: RoomStatus, now: i64) -> (r:
        Result<Room, RoomError>)
        requires
            old(self).wf(),
        ensures
            final(self).wf(),
            !old(self).id_present(room_id) ==> r == Err::<Room, RoomError>(RoomError::NotFound)
                && final(self).rooms@ == old(self).rooms@,
            old(self).id_present(room_id) ==> {
                &&& final(self).rooms@ == old(self).rooms@.update(
                    room_id - 1,
                    with_status(old(self).rooms@[room_id - 1], status, now),
                )
                &&& r matches Ok(room) && room@ == with_status(
                    old(self).rooms@[room_id - 1],
                    status,
                    now,
                )@
            },
    {
        if !(room_id >= 1 && (room_id as usize) <= self.rooms.len()) {
            return Err(RoomError::NotFound);
        }
        let idx: usize = room_id as usize - 1;
        let target = &mut self.rooms[idx];
        target.status = status;
        target.updated_at = now;
        Ok(self.rooms[idx].clone())
    }
}

} // verus!
