use vstd::prelude::*;

verus! {

/// Why a request was turned down. A rejected request changes nothing.
#[derive(Clone, Copy, Debug, PartialEq, Eq, Structural)]
pub enum ContractError {
    /// Funds were sent in a denomination other than the game's token.
    InvalidDenom,
    /// No funds came with the move.
    NoFunds,
    /// No room has that number.
    RoomNotFound,
    /// The game in that room is over.
    GameEnded,
    /// The sender does not hold the turn.
    NotYourTurn,
    /// The coordinates lie outside the board.
    OutOfBoard,
    /// Somebody already holds that cell.
    CellOccupied,
    /// The registry has not been initialised.
    StateMissing,
    /// Every room number is taken.
    RoomLimit,
    /// An amount would not fit in 128 bits.
    Overflow,
}

} // verus!
