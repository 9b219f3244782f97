use vstd::prelude::*;

use crate::board::Board;
use crate::cell::Coordinates;
use crate::room::{Payout, Room};

verus! {

/// Instantiation takes no parameters.
#[derive(Clone, Copy, Debug, PartialEq, Eq, Structural)]
pub struct InitMsg;

/// The requests that change a room.
#[derive(Clone, Debug, PartialEq, Eq)]
pub enum HandleMsg {
    PlayMove { coordinates: Coordinates, room_number: u8 },
    RestartGame { room_number: u8 },
    AddRoom { player1: String, player2: String },
}

/// The read-only requests.
#[derive(Clone, Copy, Debug, PartialEq, Eq, Structural)]
pub enum QueryMsg {
    BoardStatus { room_number: u8 },
    PlayerTurn { room_number: u8 },
    GameStatus { room_number: u8 },
    RoomExist { room_number: u8 },
    RoomList { page_number: u8 },
}

/// The drawing of a room's board.
#[derive(Clone, Debug, PartialEq, Eq)]
pub struct TableStatusResponse {
    pub status: String,
}

/// Who is to move in a room.
#[derive(Clone, Debug, PartialEq, Eq)]
pub struct PlayerTurnResponse {
    pub turn: String,
}

/// Where the game in a room stands, as text.
#[derive(Clone, Debug, PartialEq, Eq)]
pub struct GameStatusResponse {
    pub status: String,
}

/// Whether a room exists.
#[derive(Clone, Copy, Debug, PartialEq, Eq, Structural)]
pub struct RoomExistResponse {
    pub room_exist: bool,
}

/// One page of the room listing.
#[derive(Clone, Debug, PartialEq, Eq)]
pub struct ListPageResponse {
    pub list_rooms: Vec<Option<Room>>,
}

/// What an accepted request hands back: the board it left, or the number of
/// the room it opened.
#[derive(Clone, Debug, PartialEq, Eq)]
pub enum ResponseData {
    Board(Board),
    RoomNumber(u8),
}

/// The outcome of an accepted request: the payouts to send, and its data.
#[derive(Clone, Debug, PartialEq, Eq)]
pub struct Response {
    pub messages: Vec<Payout>,
    pub data: ResponseData,
}

/// The answer to a read-only request, one variant per kind of request.
#[derive(Clone, Debug, PartialEq, Eq)]
pub enum QueryAnswer {
    BoardStatus(TableStatusResponse),
    PlayerTurn(PlayerTurnResponse),
    GameStatus(GameStatusResponse),
    RoomExist(RoomExistResponse),
    RoomList(ListPageResponse),
}

} // verus!
