use vstd::prelude::*;

use crate::board::{
    fresh_cells, has_full_line, lemma_fresh_board_has_no_full_line, lemma_win_check_complete,
    line_held_by, on_line, wins_through, Board,
};
use crate::cell::{CellView, Coordinates};
use crate::error::ContractError;

verus! {

/// Mark of the player who opens the game.
pub const MARK_FIRST: &'static str = "X";

/// Mark of the other player.
pub const MARK_SECOND: &'static str = "O";

/// Prefix of the status text of a won game.
pub const WON_PREFIX: &'static str = "Won by ";

/// Status text of a game still being played.
pub const IN_PROGRESS_TEXT: &'static str = "InProgress";

/// Status text of a tied game.
pub const TIE_TEXT: &'static str = "Tie";

/// Where a game stands, as a value of the model.
pub enum GameStatus {
    Won(Seq<char>),
    Tie,
    InProgress,
}

/// Where a game stands.
#[derive(Clone, Debug, PartialEq, Eq)]
pub enum GameState {
    GameWon { player: String },
    Tie,
    InProgress,
}

impl View for GameState {
    type V = GameStatus;

    open spec fn view(&self) -> GameStatus {
        match self {
            GameState::GameWon { player } => GameStatus::Won(player@),
            GameState::Tie => GameStatus::Tie,
            GameState::InProgress => GameStatus::InProgress,
        }
    }
}

/// The text that describes a status.
pub open spec fn status_text(s: GameStatus) -> Seq<char> {
    match s {
        GameStatus::Won(p) => WON_PREFIX@ + p,
        GameStatus::Tie => TIE_TEXT@,
        GameStatus::InProgress => IN_PROGRESS_TEXT@,
    }
}

impl GameState {
    pub fn is_in_progress(&self) -> (r: bool)
        ensures
            r == (self@ is InProgress),
    {
        match self {
            GameState::InProgress => true,
            _ => false,
        }
    }

    /// `InProgress`, `Tie`, or `Won by ` followed by the winner.
    pub fn describe(&self) -> (r: String)
        ensures
            r@ == status_text(self@),
    {
        match self {
            GameState::GameWon { player } => {
                let mut s = String::from_str(WON_PREFIX);
                s.append(player.as_str());
                s
            },
            GameState::Tie => String::from_str(TIE_TEXT),
            GameState::InProgress => String::from_str(IN_PROGRESS_TEXT),
        }
    }

    pub fn duplicate(&self) -> (r: Self)
        ensures
            r@ == self@,
    {
        match self {
            GameState::GameWon { player } => GameState::GameWon { player: player.clone() },
            GameState::Tie => GameState::Tie,
            GameState::InProgress => GameState::InProgress,
        }
    }
}

/// A transfer of the game's token to the winner.
#[derive(Clone, Debug, PartialEq, Eq)]
pub struct Payout {
    pub to_address: String,
    pub amount: u128,
}

/// A room as a value of the model.
pub struct RoomView {
    pub player1: Seq<char>,
    pub player2: Seq<char>,
    pub turn: Seq<char>,
    pub board: Seq<CellView>,
    pub status: GameStatus,
    pub moves: nat,
    pub pot: nat,
}

/// A fresh game between `player1` and `player2`: `player1` to move, empty
/// board, nothing wagered.
pub open spec fn fresh_room(player1: Seq<char>, player2: Seq<char>) -> RoomView {
    RoomView {
        player1,
        player2,
        turn: player1,
        board: fresh_cells(),
        status: GameStatus::InProgress,
        moves: 0,
        pot: 0,
    }
}

impl RoomView {
    /// The mark of whoever holds the turn: `X` for the first player, `O` for the other.
    pub open spec fn mark(self) -> Seq<char> {
        if self.turn == self.player1 {
            MARK_FIRST@
        } else {
            MARK_SECOND@
        }
    }

    /// The player who does not hold the turn.
    pub open spec fn other(self) -> Seq<char> {
        if self.turn == self.player1 {
            self.player2
        } else {
            self.player1
        }
    }

    /// Why a move by `sender` at `c` with `sent` wagered is rejected, checked in
    /// this order; `None` when it is accepted.
    pub open spec fn move_error(self, sender: Seq<char>, sent: nat, c: Coordinates) -> Option<
        ContractError,
    > {
        if !(self.status is InProgress) || self.moves == 9 {
            Some(ContractError::GameEnded)
        } else if sender != self.turn {
            Some(ContractError::NotYourTurn)
        } else if !c.valid() {
            Some(ContractError::OutOfBoard)
        } else if self.board[c.spec_index()].owner is Some {
            Some(ContractError::CellOccupied)
        } else if self.pot + sent > u128::MAX {
            Some(ContractError::Overflow)
        } else {
            None
        }
    }

    /// The board once the turn holder has taken the cell at `c`.
    pub open spec fn board_after(self, c: Coordinates) -> Seq<CellView> {
        self.board.update(c.spec_index(), CellView { owner: Some(self.turn), sign: self.mark() })
    }

    /// The move at `c` completes a line through `c`.
    pub open spec fn move_wins(self, c: Coordinates) -> bool {
        wins_through(self.board_after(c), c.spec_index())
    }

    /// The room after an accepted move at `c` with `sent` wagered: the cell is
    /// taken, the count and the pot grow; a completed line wins the game for
    /// the mover, else a ninth move ties it, else the turn passes.
    pub open spec fn after_move(self, sent: nat, c: Coordinates) -> RoomView {
        let moved = RoomView {
            board: self.board_after(c),
            moves: self.moves + 1,
            pot: self.pot + sent,
            ..self
        };
        if self.move_wins(c) {
            RoomView { status: GameStatus::Won(self.turn), ..moved }
        } else if self.moves + 1 == 9 {
            RoomView { status: GameStatus::Tie, ..moved }
        } else {
            RoomView { turn: self.other(), ..moved }
        }
    }

    /// The room after a move request: `after_move` when it is accepted,
    /// unchanged when it is rejected.
    pub open spec fn step(self, sender: Seq<char>, sent: nat, c: Coordinates) -> RoomView {
        if self.move_error(sender, sent, c) is None {
            self.after_move(sent, c)
        } else {
            self
        }
    }

    /// What the winner of an accepted move is paid: half the pot, rounded down.
    pub open spec fn payout(self, sent: nat, c: Coordinates) -> Option<(Seq<char>, nat)> {
        if self.move_wins(c) {
            Some((self.turn, (self.pot + sent) / 2))
        } else {
            None
        }
    }
}

/// A held cell keeps its occupant and its mark through every move request,
/// accepted or rejected: only a restart clears it.
pub proof fn lemma_held_cells_stay(v: RoomView, sender: Seq<char>, sent: nat, c: Coordinates)
    requires
        v.board.len() == 9,
    ensures
        forall|i: int|
            0 <= i < v.board.len() && (#[trigger] v.board[i]).owner is Some ==> v.step(
                sender,
                sent,
                c,
            ).board[i] == v.board[i],
{
    assert forall|i: int|
        0 <= i < v.board.len() && (#[trigger] v.board[i]).owner is Some implies v.step(
            sender,
            sent,
            c,
        ).board[i] == v.board[i] by {
        if v.move_error(sender, sent, c) is None {
            assert(v.step(sender, sent, c).board == v.board_after(c));
        }
    }
}

/// The two players of a room never change, and the turn stays with one of
/// them, through every move request.
pub proof fn lemma_players_fixed(v: RoomView, sender: Seq<char>, sent: nat, c: Coordinates)
    requires
        v.turn == v.player1 || v.turn == v.player2,
    ensures
        v.step(sender, sent, c).player1 == v.player1,
        v.step(sender, sent, c).player2 == v.player2,
        v.step(sender, sent, c).turn == v.player1 || v.step(sender, sent, c).turn == v.player2,
{
}

/// Of two moves accepted one after the other in a room of two distinct
/// players, the first is made by the turn holder and the second by the other
/// player.
pub proof fn lemma_turns_alternate(
    v: RoomView,
    sender1: Seq<char>,
    sent1: nat,
    c1: Coordinates,
    sender2: Seq<char>,
    sent2: nat,
    c2: Coordinates,
)
    requires
        v.turn == v.player1 || v.turn == v.player2,
        v.player1 != v.player2,
        v.move_error(sender1, sent1, c1) is None,
        v.after_move(sent1, c1).move_error(sender2, sent2, c2) is None,
    ensures
        sender1 == v.turn,
        sender2 == v.other(),
        sender1 != sender2,
        sender2 == v.player1 || sender2 == v.player2,
{
}

/// A move request from anyone but the turn holder is rejected and changes
/// nothing.
pub proof fn lemma_only_turn_holder_moves(v: RoomView, sender: Seq<char>, sent: nat, c: Coordinates)
    requires
        sender != v.turn,
    ensures
        v.move_error(sender, sent, c) is Some,
        v.step(sender, sent, c) == v,
{
}

/// An accepted ninth move that leaves no row, column or diagonal held by one
/// identity ties the game.
pub proof fn lemma_ninth_move_ties(v: RoomView, sender: Seq<char>, sent: nat, c: Coordinates)
    requires
        v.moves == 8,
        v.move_error(sender, sent, c) is None,
        !has_full_line(v.after_move(sent, c).board),
    ensures
        v.after_move(sent, c).status == GameStatus::Tie,
        v.after_move(sent, c).moves == 9,
{
    if v.move_wins(c) {
        let b = v.board_after(c);
        let i = c.spec_index();
        let l = choose|l: int| 0 <= l < 8 && on_line(l, i) && #[trigger] line_held_by(b, l, b[i].owner->0);
        assert(line_held_by(v.after_move(sent, c).board, l, b[i].owner->0));
    }
}

/// A game in progress shows no full line: so it is in a fresh room, and so it
/// stays through every move request.
pub proof fn lemma_in_progress_has_no_full_line(
    v: RoomView,
    sender: Seq<char>,
    sent: nat,
    c: Coordinates,
    player1: Seq<char>,
    player2: Seq<char>,
)
    requires
        v.board.len() == 9,
        v.status is InProgress ==> !has_full_line(v.board),
    ensures
        !has_full_line(fresh_room(player1, player2).board),
        v.step(sender, sent, c).status is InProgress ==> !has_full_line(
            v.step(sender, sent, c).board,
        ),
{
    lemma_fresh_board_has_no_full_line();
    if v.move_error(sender, sent, c) is None {
        lemma_win_check_complete(v.board, c.spec_index(), v.turn, v.mark());
    }
}

/// In a game in progress with no full line, an accepted move wins exactly when
/// it leaves some row, column or diagonal held entirely by one identity.
pub proof fn lemma_move_wins_iff_full_line(v: RoomView, sender: Seq<char>, sent: nat, c: Coordinates)
    requires
        v.board.len() == 9,
        v.status is InProgress,
        !has_full_line(v.board),
        v.move_error(sender, sent, c) is None,
    ensures
        v.move_wins(c) <==> has_full_line(v.board_after(c)),
{
    lemma_win_check_complete(v.board, c.spec_index(), v.turn, v.mark());
}

/// The recipient and amount of an optional payout.
pub open spec fn payout_view(p: Option<Payout>) -> Option<(Seq<char>, nat)> {
    match p {
        Some(x) => Some((x.to_address@, x.amount as nat)),
        None => None,
    }
}

/// One match between two players.
#[derive(Clone, Debug, PartialEq, Eq)]
pub struct Room {
    pub player1: String,
    pub player2: String,
    pub turn: String,
    pub board: Board,
    pub game_state: GameState,
    pub no_moves: u8,
    pub total_coins_raised: u128,
}

impl View for Room {
    type V = RoomView;

    open spec fn view(&self) -> RoomView {
        RoomView {
            player1: self.player1@,
            player2: self.player2@,
            turn: self.turn@,
            board: self.board@,
            status: self.game_state@,
            moves: self.no_moves as nat,
            pot: self.total_coins_raised as nat,
        }
    }
}

impl Room {
    /// A well-formed board, the turn held by one of the two players, at most
    /// nine moves.
    pub open spec fn wf(&self) -> bool {
        &&& self.board.wf()
        &&& (self.turn@ == self.player1@ || self.turn@ == self.player2@)
        &&& self.no_moves <= 9
    }

    /// Whether the room is well formed.
    pub fn is_wf(&self) -> (r: bool)
        ensures
            r == self.wf(),
    {
        self.board.is_wf() && (self.turn == self.player1 || self.turn == self.player2)
            && self.no_moves <= 9
    }

    pub fn new(player1: String, player2: String) -> (r: Self)
        ensures
            r.wf(),
            r@ == fresh_room(player1@, player2@),
    {
        let turn = player1.clone();
        Self {
            player1,
            player2,
            turn,
            board: Board::new(),
            game_state: GameState::InProgress,
            no_moves: 0,
            total_coins_raised: 0,
        }
    }

    /// The same two players in a fresh game, whatever state this one is in.
    pub fn restart_game(&self) -> (r: Self)
        requires
            self.wf(),
        ensures
            r.wf(),
            r@ == fresh_room(self.player1@, self.player2@),
    {
        Self {
            player1: self.player1.clone(),
            player2: self.player2.clone(),
            turn: self.player1.clone(),
            board: self.board.restart_board(),
            game_state: GameState::InProgress,
            no_moves: 0,
            total_coins_raised: 0,
        }
    }

    /// A copy of the room.
    pub fn duplicate(&self) -> (r: Self)
        requires
            self.wf(),
        ensures
            r.wf(),
            r@ == self@,
    {
        Self {
            player1: self.player1.clone(),
            player2: self.player2.clone(),
            turn: self.turn.clone(),
            board: self.board.duplicate(),
            game_state: self.game_state.duplicate(),
            no_moves: self.no_moves,
            total_coins_raised: self.total_coins_raised,
        }
    }

    /// Plays the turn holder's move at `coordinates`, with `sent` wagered.
    /// A rejected move leaves the room as it was; a winning move returns the
    /// payout owed to the winner.
    pub fn play_move(&mut self, sender: &String, sent: u128, coordinates: Coordinates) -> (r:
        Result<Option<Payout>, ContractError>)
        requires
            old(self).wf(),
        ensures
            final(self).wf(),
            match r {
                Ok(p) => {
                    &&& old(self)@.move_error(sender@, sent as nat, coordinates) is None
                    &&& final(self)@ == old(self)@.after_move(sent as nat, coordinates)
                    &&& payout_view(p) == old(self)@.payout(sent as nat, coordinates)
                },
                Err(e) => {
                    &&& old(self)@.move_error(sender@, sent as nat, coordinates) == Some(e)
                    &&& *final(self) == *old(self)
                },
            },
    {
        if !self.game_state.is_in_progress() || self.no_moves == 9 {
            return Err(ContractError::GameEnded);
        }
        if !(*sender == self.turn) {
            return Err(ContractError::NotYourTurn);
        }
        if !coordinates.is_valid() {
            return Err(ContractError::OutOfBoard);
        }
        if !self.board.cells[coordinates.index()].is_free() {
            return Err(ContractError::CellOccupied);
        }
        let pot = match self.total_coins_raised.checked_add(sent) {
            Some(pot) => pot,
            None => {
                return Err(ContractError::Overflow);
            },
        };
        let ghost before = self@;
        let first = self.turn == self.player1;
        let sign = if first {
            String::from_str(MARK_FIRST)
        } else {
            String::from_str(MARK_SECOND)
        };
        self.board.occupy_cell(self.turn.clone(), coordinates, sign);
        self.no_moves = self.no_moves + 1;
        self.total_coins_raised = pot;
        assert(self.board@ == before.board_after(coordinates));
        if self.board.check_for_win(coordinates) {
            self.game_state = GameState::GameWon { player: self.turn.clone() };
            return Ok(Some(Payout { to_address: self.turn.clone(), amount: pot / 2 }));
        }
        if self.no_moves == 9 {
            self.game_state = GameState::Tie;
        } else if first {
            self.turn = self.player2.clone();
        } else {
            self.turn = self.player1.clone();
        }
        Ok(None)
    }
}

} // verus!
