use vstd::prelude::*;

use crate::error::ContractError;
use crate::room::{fresh_room, Room, RoomView};

verus! {

/// Largest number of rooms the registry can hold: room numbers are `u8`.
pub const MAX_ROOMS: u8 = 255;

/// The registry entry: how many rooms exist, and the balance the contract keeps.
#[derive(Clone, Copy, Debug, PartialEq, Eq, Structural)]
pub struct State {
    pub room_count: u8,
    pub balance: u128,
}

/// The store of the contract: the registry entry, once initialised, and the
/// rooms, room `n` being the `n`-th.
pub struct ContractStorage {
    pub state: Option<State>,
    pub rooms: Vec<Room>,
}

impl ContractStorage {
    /// No room without a registry entry; as many rooms as it counts; every
    /// room well formed.
    pub open spec fn wf(&self) -> bool {
        &&& match self.state {
            Some(s) => self.rooms@.len() == s.room_count,
            None => self.rooms@.len() == 0,
        }
        &&& forall|i: int| 0 <= i < self.rooms@.len() ==> (#[trigger] self.rooms@[i]).wf()
    }

    /// The rooms, as values of the model.
    pub open spec fn rooms_view(&self) -> Seq<RoomView> {
        self.rooms@.map_values(|r: Room| r@)
    }

    /// An empty store, not yet initialised.
    pub fn new() -> (r: Self)
        ensures
            r.wf(),
            r.state is None,
            r.rooms_view() == Seq::<RoomView>::empty(),
    {
        let r = Self { state: None, rooms: Vec::new() };
        assert(r.rooms_view() =~= Seq::<RoomView>::empty());
        r
    }
}

impl State {
    /// Creates the registry entry, with no rooms and no balance, unless it
    /// exists already.
    pub fn init_state(storage: &mut ContractStorage)
        requires
            old(storage).wf(),
        ensures
            final(storage).wf(),
            final(storage).state == match old(storage).state {
                Some(s) => Some(s),
                None => Some(State { room_count: 0, balance: 0 }),
            },
            final(storage).rooms_view() == old(storage).rooms_view(),
    {
        if storage.state.is_none() {
            storage.state = Some(State { room_count: 0, balance: 0 });
        }
    }

    /// Takes the next room number, the current count, which then grows by
    /// one; fails when every number is taken.
    pub fn allocate_room(&mut self) -> (r: Result<u8, ContractError>)
        ensures
            match r {
                Ok(n) => old(self).room_count < MAX_ROOMS && n == old(self).room_count
                    && *final(self) == State { room_count: (n + 1) as u8, ..*old(self) },
                Err(e) => old(self).room_count == MAX_ROOMS && e == ContractError::RoomLimit
                    && *final(self) == *old(self),
            },
    {
        if self.room_count == MAX_ROOMS {
            return Err(ContractError::RoomLimit);
        }
        let n = self.room_count;
        self.room_count = n + 1;
        Ok(n)
    }

    /// The registry entry.
    pub fn load_state(storage: &ContractStorage) -> (r: Result<State, ContractError>)
        ensures
            r == match storage.state {
                Some(s) => Ok(s),
                None => Err(ContractError::StateMissing),
            },
    {
        match storage.state {
            Some(s) => Ok(s),
            None => Err(ContractError::StateMissing),
        }
    }

    /// Overwrites the registry entry, which must exist; the room count must
    /// stay the number of rooms.
    pub fn save_state(&self, storage: &mut ContractStorage) -> (r: Result<(), ContractError>)
        requires
            old(storage).wf(),
            self.room_count == old(storage).rooms@.len(),
        ensures
            final(storage).wf(),
            final(storage).rooms_view() == old(storage).rooms_view(),
            match r {
                Ok(()) => old(storage).state is Some && final(storage).state == Some(*self),
                Err(e) => old(storage).state is None && e == ContractError::StateMissing
                    && final(storage).state == old(storage).state,
            },
    {
        if storage.state.is_none() {
            return Err(ContractError::StateMissing);
        }
        storage.state = Some(*self);
        Ok(())
    }
}

impl Room {
    /// A copy of room `room_number`, if there is one.
    pub fn load_room(room_number: u8, storage: &ContractStorage) -> (r: Option<Room>)
        requires
            storage.wf(),
        ensures
            r is Some <==> room_number < storage.rooms@.len(),
            r matches Some(room) ==> room.wf() && room@ == storage.rooms_view()[room_number as int],
    {
        let n = room_number as usize;
        if n < storage.rooms.len() {
            Some(storage.rooms[n].duplicate())
        } else {
            None
        }
    }

    /// Opens a room for `player1` and `player2`, `player1` to move, under the
    /// next room number, which it returns.
    pub fn add_room(storage: &mut ContractStorage, player1: String, player2: String) -> (r: Result<
        u8,
        ContractError,
    >)
        requires
            old(storage).wf(),
        ensures
            final(storage).wf(),
            match r {
                Ok(n) => {
                    &&& old(storage).state matches Some(s) && s.room_count < MAX_ROOMS
                        && n == s.room_count && final(storage).state == Some(
                        State { room_count: (s.room_count + 1) as u8, ..s },
                    )
                    &&& final(storage).rooms_view() == old(storage).rooms_view().push(
                        fresh_room(player1@, player2@),
                    )
                },
                Err(e) => {
                    &&& e == match old(storage).state {
                        None => ContractError::StateMissing,
                        Some(_) => ContractError::RoomLimit,
                    }
                    &&& old(storage).state matches Some(s) ==> s.room_count == MAX_ROOMS
                    &&& *final(storage) == *old(storage)
                },
            },
    {
        let mut state = match storage.state {
            Some(s) => s,
            None => {
                return Err(ContractError::StateMissing);
            },
        };
        let n = match state.allocate_room() {
            Ok(n) => n,
            Err(e) => {
                return Err(e);
            },
        };
        let room = Room::new(player1, player2);
        storage.rooms.push(room);
        storage.state = Some(state);
        assert(storage.rooms_view() =~= old(storage).rooms_view().push(
            fresh_room(player1@, player2@),
        ));
        Ok(n)
    }

    /// Stores `room` as room `room_index`, which must exist.
    pub fn save_room(room_index: u8, storage: &mut ContractStorage, room: Room) -> (r: Result<
        (),
        ContractError,
    >)
        requires
            old(storage).wf(),
            room.wf(),
        ensures
            final(storage).wf(),
            final(storage).state == old(storage).state,
            match r {
                Ok(()) => room_index < old(storage).rooms@.len() && final(storage).rooms_view()
                    == old(storage).rooms_view().update(room_index as int, room@),
                Err(e) => room_index >= old(storage).rooms@.len() && e
                    == ContractError::RoomNotFound && *final(storage) == *old(storage),
            },
    {
        let n = room_index as usize;
        if n >= storage.rooms.len() {
            return Err(ContractError::RoomNotFound);
        }
        let ghost v = room@;
        storage.rooms.set(n, room);
        assert(storage.rooms_view() =~= old(storage).rooms_view().update(room_index as int, v));
        Ok(())
    }
}

} // verus!
