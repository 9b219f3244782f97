use vstd::prelude::*;

use crate::board::{drawing, fresh_cells};
use crate::cell::Coordinates;
use crate::error::ContractError;
use crate::funds::{collect_funds, funds_error, total_amount, Coin};
use crate::msg::{
    GameStatusResponse, HandleMsg, ListPageResponse, PlayerTurnResponse, QueryAnswer, QueryMsg,
    Response, ResponseData, RoomExistResponse, TableStatusResponse,
};
use crate::room::{fresh_room, payout_view, status_text, Payout, Room, RoomView};
use crate::state::{ContractStorage, State, MAX_ROOMS};

verus! {

/// Rooms listed on one page.
pub const ROOMS_PER_PAGE: usize = 10;

/// Where page `offset` begins, `per_page` items a page, out of `total`.
pub open spec fn page_first(total: int, per_page: int, offset: int) -> int {
    if offset * per_page < total {
        offset * per_page
    } else {
        total
    }
}

/// How many of `total` items page `offset` holds, `per_page` items a page.
pub open spec fn page_length(total: int, per_page: int, offset: int) -> int {
    let first = page_first(total, per_page, offset);
    if first + per_page < total {
        per_page
    } else {
        total - first
    }
}

/// Relies on `paginate::Pages::with_offset` over `Pages::new(total, per_page)`:
/// the page starts at `min(offset * per_page, total)`, its `length` is
/// `min(start + per_page, total) - start`, and an empty page reports start 0.
/// Its body multiplies and adds without a check, hence the bounds.
#[verifier::external_body]
fn page_bounds(total: usize, per_page: usize, offset: usize) -> (r: (usize, usize))
    requires
        offset * per_page <= usize::MAX,
        total + per_page <= usize::MAX,
    ensures
        r.1 == page_length(total as int, per_page as int, offset as int),
        r.0 == (if r.1 == 0 {
            0
        } else {
            page_first(total as int, per_page as int, offset as int)
        }),
{
    let page = paginate::Pages::new(total, per_page).with_offset(offset);
    (page.start, page.length)
}

/// The rooms on page `page_number`, ten a page, out of `room_count`: the
/// first room's number and how many there are.
pub fn page_range(room_count: u8, page_number: u8) -> (r: (usize, usize))
    ensures
        r.1 == page_length(room_count as int, ROOMS_PER_PAGE as int, page_number as int),
        r.1 > 0 ==> r.0 == page_first(room_count as int, ROOMS_PER_PAGE as int, page_number as int),
        r.0 + r.1 <= room_count,
{
    page_bounds(room_count as usize, ROOMS_PER_PAGE, page_number as usize)
}

/// The balance once a payout, if any, is added to it.
pub open spec fn balance_after(balance: nat, payout: Option<(Seq<char>, nat)>) -> nat {
    match payout {
        Some((_, amount)) => balance + amount,
        None => balance,
    }
}

/// Why a move is rejected once its funds are accepted and its room found: the
/// room's own reasons, then a balance that cannot take the payout.
pub open spec fn settle_error(
    balance: nat,
    v: RoomView,
    sender: Seq<char>,
    sent: nat,
    c: Coordinates,
) -> Option<ContractError> {
    match v.move_error(sender, sent, c) {
        Some(e) => Some(e),
        None => if balance_after(balance, v.payout(sent, c)) > u128::MAX {
            Some(ContractError::Overflow)
        } else {
            None
        },
    }
}

/// Why a move request is rejected, in this order: its funds, an unknown room,
/// then the room's own reasons and the balance; `None` when it is accepted.
pub open spec fn play_error(
    s: ContractStorage,
    sender: Seq<char>,
    funds: Seq<Coin>,
    c: Coordinates,
    n: u8,
) -> Option<ContractError> {
    if funds_error(funds) is Some {
        funds_error(funds)
    } else if n >= s.rooms@.len() {
        Some(ContractError::RoomNotFound)
    } else {
        settle_error(
            s.state->0.balance as nat,
            s.rooms_view()[n as int],
            sender,
            total_amount(funds),
            c,
        )
    }
}

/// The payouts of a response, as recipients and amounts.
pub open spec fn messages_view(m: Seq<Payout>) -> Seq<(Seq<char>, nat)> {
    m.map_values(|p: Payout| (p.to_address@, p.amount as nat))
}

/// No payout, or the one payout.
pub open spec fn payout_seq(p: Option<(Seq<char>, nat)>) -> Seq<(Seq<char>, nat)> {
    match p {
        Some(x) => seq![x],
        None => Seq::empty(),
    }
}

/// What a move request did to the store and what it answered: an accepted
/// move updates its room, adds the payout to the balance and answers the new
/// board and the payout; a rejected one changes nothing.
pub open spec fn played(
    before: ContractStorage,
    after: ContractStorage,
    sender: Seq<char>,
    funds: Seq<Coin>,
    c: Coordinates,
    n: u8,
    r: Result<Response, ContractError>,
) -> bool {
    match r {
        Ok(resp) => {
            let v = before.rooms_view()[n as int];
            let sent = total_amount(funds);
            let s = before.state->0;
            &&& play_error(before, sender, funds, c, n) is None
            &&& after.rooms_view() == before.rooms_view().update(n as int, v.after_move(sent, c))
            &&& after.state == Some(
                State { balance: balance_after(s.balance as nat, v.payout(sent, c)) as u128, ..s },
            )
            &&& resp.data matches ResponseData::Board(b) && b@ == v.after_move(sent, c).board
            &&& messages_view(resp.messages@) == payout_seq(v.payout(sent, c))
        },
        Err(e) => play_error(before, sender, funds, c, n) == Some(e) && after == before,
    }
}

/// What a restart request did: room `n` holds a fresh game between the same
/// players, whatever its state was, and the fresh board is answered.
pub open spec fn restarted(
    before: ContractStorage,
    after: ContractStorage,
    n: u8,
    r: Result<Response, ContractError>,
) -> bool {
    match r {
        Ok(resp) => {
            let v = before.rooms_view()[n as int];
            &&& n < before.rooms@.len()
            &&& after.rooms_view() == before.rooms_view().update(
                n as int,
                fresh_room(v.player1, v.player2),
            )
            &&& after.state == before.state
            &&& resp.data matches ResponseData::Board(b) && b@ == fresh_cells()
            &&& resp.messages@.len() == 0
        },
        Err(e) => n >= before.rooms@.len() && e == ContractError::RoomNotFound && after == before,
    }
}

/// What a request to open a room did: a fresh room under the next number,
/// which is answered.
pub open spec fn room_added(
    before: ContractStorage,
    after: ContractStorage,
    player1: Seq<char>,
    player2: Seq<char>,
    r: Result<Response, ContractError>,
) -> bool {
    match r {
        Ok(resp) => {
            &&& before.state matches Some(s) && s.room_count < MAX_ROOMS && resp.data
                == ResponseData::RoomNumber(s.room_count) && after.state == Some(
                State { room_count: (s.room_count + 1) as u8, ..s },
            )
            &&& after.rooms_view() == before.rooms_view().push(fresh_room(player1, player2))
            &&& resp.messages@.len() == 0
        },
        Err(e) => {
            &&& e == match before.state {
                None => ContractError::StateMissing,
                Some(_) => ContractError::RoomLimit,
            }
            &&& before.state matches Some(s) ==> s.room_count == MAX_ROOMS
            &&& after == before
        },
    }
}

/// The answer for room `n` when it does not exist.
pub open spec fn room_missing(s: ContractStorage, n: u8, e: ContractError) -> bool {
    n >= s.rooms@.len() && e == ContractError::RoomNotFound
}

/// `t` draws the board of room `n`.
pub open spec fn shows_table(s: ContractStorage, n: u8, t: TableStatusResponse) -> bool {
    n < s.rooms@.len() && t.status@ == drawing(s.rooms_view()[n as int].board)
}

/// `t` names who is to move in room `n`.
pub open spec fn shows_turn(s: ContractStorage, n: u8, t: PlayerTurnResponse) -> bool {
    n < s.rooms@.len() && t.turn@ == s.rooms_view()[n as int].turn
}

/// `g` describes where the game in room `n` stands.
pub open spec fn shows_status(s: ContractStorage, n: u8, g: GameStatusResponse) -> bool {
    n < s.rooms@.len() && g.status@ == status_text(s.rooms_view()[n as int].status)
}

/// `p` lists, in order, the rooms on page `page` of the registry, ten rooms a
/// page.
pub open spec fn shows_page(s: ContractStorage, page: u8, p: ListPageResponse) -> bool {
    let total = s.state->0.room_count as int;
    let first = page_first(total, ROOMS_PER_PAGE as int, page as int);
    let length = page_length(total, ROOMS_PER_PAGE as int, page as int);
    &&& s.state is Some
    &&& p.list_rooms@.len() == length
    &&& forall|k: int|
        0 <= k < length ==> ((#[trigger] p.list_rooms@[k]) matches Some(room) && room@
            == s.rooms_view()[first + k])
}

/// Sets up the registry entry, unless it exists already.
pub fn instantiate(storage: &mut ContractStorage)
    requires
        old(storage).wf(),
    ensures
        final(storage).wf(),
        final(storage).state == match old(storage).state {
            Some(s) => Some(s),
            None => Some(State { room_count: 0, balance: 0 }),
        },
        final(storage).rooms_view() == old(storage).rooms_view(),
{
    State::init_state(storage);
}

/// Plays a move in `room` with `sent` wagered, and adds the winner's payout,
/// if any, to the balance in `state`. Rejected, it changes neither.
pub fn settle_move(
    state: &mut State,
    room: &mut Room,
    sender: &String,
    sent: u128,
    coordinates: Coordinates,
) -> (r: Result<Option<Payout>, ContractError>)
    requires
        old(room).wf(),
    ensures
        final(room).wf(),
        match r {
            Ok(p) => {
                &&& settle_error(
                    old(state).balance as nat,
                    old(room)@,
                    sender@,
                    sent as nat,
                    coordinates,
                ) is None
                &&& final(room)@ == old(room)@.after_move(sent as nat, coordinates)
                &&& payout_view(p) == old(room)@.payout(sent as nat, coordinates)
                &&& final(state).room_count == old(state).room_count
                &&& final(state).balance == balance_after(old(state).balance as nat, payout_view(p))
            },
            Err(e) => {
                &&& settle_error(
                    old(state).balance as nat,
                    old(room)@,
                    sender@,
                    sent as nat,
                    coordinates,
                ) == Some(e)
                &&& *final(room) == *old(room)
                &&& *final(state) == *old(state)
            },
        },
{
    let mut next = room.duplicate();
    let payout = match next.play_move(sender, sent, coordinates) {
        Ok(p) => p,
        Err(e) => {
            return Err(e);
        },
    };
    let balance = match &payout {
        Some(p) => match state.balance.checked_add(p.amount) {
            Some(b) => b,
            None => {
                return Err(ContractError::Overflow);
            },
        },
        None => state.balance,
    };
    *room = next;
    state.balance = balance;
    Ok(payout)
}

/// Plays `sender`'s move at `coordinates` in room `room_number`, wagering
/// `funds`. On a win, half the room's pot goes to the winner.
pub fn play_move(
    storage: &mut ContractStorage,
    sender: &String,
    funds: &Vec<Coin>,
    coordinates: Coordinates,
    room_number: u8,
) -> (r: Result<Response, ContractError>)
    requires
        old(storage).wf(),
    ensures
        final(storage).wf(),
        played(*old(storage), *final(storage), sender@, funds@, coordinates, room_number, r),
{
    let sent = match collect_funds(funds) {
        Ok(t) => t,
        Err(e) => {
            return Err(e);
        },
    };
    let mut room = match Room::load_room(room_number, storage) {
        Some(room) => room,
        None => {
            return Err(ContractError::RoomNotFound);
        },
    };
    let mut state = match storage.state {
        Some(s) => s,
        None => {
            return Err(ContractError::StateMissing);
        },
    };
    let payout = match settle_move(&mut state, &mut room, sender, sent, coordinates) {
        Ok(p) => p,
        Err(e) => {
            return Err(e);
        },
    };
    let board = room.board.duplicate();
    let _ = Room::save_room(room_number, storage, room);
    let _ = state.save_state(storage);
    let mut messages: Vec<Payout> = Vec::new();
    match payout {
        Some(p) => messages.push(p),
        None => {},
    }
    assert(messages_view(messages@) =~= payout_seq(payout_view(payout)));
    Ok(Response { messages, data: ResponseData::Board(board) })
}

/// Opens a room for `player1` and `player2` and answers its number.
pub fn add_room(storage: &mut ContractStorage, player1: String, player2: String) -> (r: Result<
    Response,
    ContractError,
>)
    requires
        old(storage).wf(),
    ensures
        final(storage).wf(),
        room_added(*old(storage), *final(storage), player1@, player2@, r),
{
    let room_number = match Room::add_room(storage, player1, player2) {
        Ok(n) => n,
        Err(e) => {
            return Err(e);
        },
    };
    Ok(Response { messages: Vec::new(), data: ResponseData::RoomNumber(room_number) })
}

/// Starts the game in room `room_number` afresh and answers the cleared board.
pub fn restart_game(storage: &mut ContractStorage, room_number: u8) -> (r: Result<
    Response,
    ContractError,
>)
    requires
        old(storage).wf(),
    ensures
        final(storage).wf(),
        restarted(*old(storage), *final(storage), room_number, r),
{
    let room = match Room::load_room(room_number, storage) {
        Some(room) => room,
        None => {
            return Err(ContractError::RoomNotFound);
        },
    };
    let room = room.restart_game();
    let board = room.board.duplicate();
    let _ = Room::save_room(room_number, storage, room);
    Ok(Response { messages: Vec::new(), data: ResponseData::Board(board) })
}

/// Carries out a request that changes a room, sent by `sender` with `funds`.
pub fn execute(storage: &mut ContractStorage, sender: &String, funds: &Vec<Coin>, msg: HandleMsg) -> (r:
    Result<Response, ContractError>)
    requires
        old(storage).wf(),
    ensures
        final(storage).wf(),
        match msg {
            HandleMsg::PlayMove { coordinates, room_number } => played(
                *old(storage),
                *final(storage),
                sender@,
                funds@,
                coordinates,
                room_number,
                r,
            ),
            HandleMsg::RestartGame { room_number } => restarted(
                *old(storage),
                *final(storage),
                room_number,
                r,
            ),
            HandleMsg::AddRoom { player1, player2 } => room_added(
                *old(storage),
                *final(storage),
                player1@,
                player2@,
                r,
            ),
        },
{
    match msg {
        HandleMsg::PlayMove { coordinates, room_number } => play_move(
            storage,
            sender,
            funds,
            coordinates,
            room_number,
        ),
        HandleMsg::RestartGame { room_number } => restart_game(storage, room_number),
        HandleMsg::AddRoom { player1, player2 } => add_room(storage, player1, player2),
    }
}

/// The drawing of the board of room `room_number`.
pub fn query_table_status(storage: &ContractStorage, room_number: u8) -> (r: Result<
    TableStatusResponse,
    ContractError,
>)
    requires
        storage.wf(),
    ensures
        match r {
            Ok(t) => shows_table(*storage, room_number, t),
            Err(e) => room_missing(*storage, room_number, e),
        },
{
    match Room::load_room(room_number, storage) {
        Some(room) => Ok(TableStatusResponse { status: room.board.draw_board() }),
        None => Err(ContractError::RoomNotFound),
    }
}

/// Who is to move in room `room_number`.
pub fn query_player_turn(storage: &ContractStorage, room_number: u8) -> (r: Result<
    PlayerTurnResponse,
    ContractError,
>)
    requires
        storage.wf(),
    ensures
        match r {
            Ok(t) => shows_turn(*storage, room_number, t),
            Err(e) => room_missing(*storage, room_number, e),
        },
{
    match Room::load_room(room_number, storage) {
        Some(room) => Ok(PlayerTurnResponse { turn: room.turn }),
        None => Err(ContractError::RoomNotFound),
    }
}

/// Where the game in room `room_number` stands, as text.
pub fn query_game_status(storage: &ContractStorage, room_number: u8) -> (r: Result<
    GameStatusResponse,
    ContractError,
>)
    requires
        storage.wf(),
    ensures
        match r {
            Ok(g) => shows_status(*storage, room_number, g),
            Err(e) => room_missing(*storage, room_number, e),
        },
{
    match Room::load_room(room_number, storage) {
        Some(room) => Ok(GameStatusResponse { status: room.game_state.describe() }),
        None => Err(ContractError::RoomNotFound),
    }
}

/// Page `page_number` of the rooms, ten a page.
pub fn query_list_rooms(storage: &ContractStorage, page_number: u8) -> (r: Result<
    ListPageResponse,
    ContractError,
>)
    requires
        storage.wf(),
    ensures
        match r {
            Ok(p) => shows_page(*storage, page_number, p),
            Err(e) => storage.state is None && e == ContractError::StateMissing,
        },
{
    let state = match State::load_state(storage) {
        Ok(s) => s,
        Err(e) => {
            return Err(e);
        },
    };
    let (start, length) = page_range(state.room_count, page_number);
    let mut list_rooms: Vec<Option<Room>> = Vec::new();
    let mut k: usize = 0;
    while k < length
        invariant
            storage.wf(),
            storage.state == Some(state),
            length == page_length(state.room_count as int, ROOMS_PER_PAGE as int, page_number as int),
            length > 0 ==> start == page_first(
                state.room_count as int,
                ROOMS_PER_PAGE as int,
                page_number as int,
            ),
            k <= length,
            list_rooms@.len() == k,
            forall|j: int|
                0 <= j < k ==> ((#[trigger] list_rooms@[j]) matches Some(room) && room@
                    == storage.rooms_view()[start + j]),
        decreases length - k,
    {
        list_rooms.push(Room::load_room((start + k) as u8, storage));
        k = k + 1;
    }
    Ok(ListPageResponse { list_rooms })
}

/// Whether room `room_number` exists.
pub fn query_room_exist(storage: &ContractStorage, room_number: u8) -> (r: RoomExistResponse)
    requires
        storage.wf(),
    ensures
        r.room_exist == (room_number < storage.rooms@.len()),
{
    RoomExistResponse { room_exist: (room_number as usize) < storage.rooms.len() }
}

/// Answers a read-only request.
pub fn query(storage: &ContractStorage, msg: QueryMsg) -> (r: Result<QueryAnswer, ContractError>)
    requires
        storage.wf(),
    ensures
        match msg {
            QueryMsg::BoardStatus { room_number } => match r {
                Ok(QueryAnswer::BoardStatus(t)) => shows_table(*storage, room_number, t),
                Ok(_) => false,
                Err(e) => room_missing(*storage, room_number, e),
            },
            QueryMsg::PlayerTurn { room_number } => match r {
                Ok(QueryAnswer::PlayerTurn(t)) => shows_turn(*storage, room_number, t),
                Ok(_) => false,
                Err(e) => room_missing(*storage, room_number, e),
            },
            QueryMsg::GameStatus { room_number } => match r {
                Ok(QueryAnswer::GameStatus(g)) => shows_status(*storage, room_number, g),
                Ok(_) => false,
                Err(e) => room_missing(*storage, room_number, e),
            },
            QueryMsg::RoomExist { room_number } => match r {
                Ok(QueryAnswer::RoomExist(x)) => x.room_exist == (room_number
                    < storage.rooms@.len()),
                _ => false,
            },
            QueryMsg::RoomList { page_number } => match r {
                Ok(QueryAnswer::RoomList(p)) => shows_page(*storage, page_number, p),
                Ok(_) => false,
                Err(e) => storage.state is None && e == ContractError::StateMissing,
            },
        },
{
    match msg {
        QueryMsg::BoardStatus { room_number } => match query_table_status(storage, room_number) {
            Ok(t) => Ok(QueryAnswer::BoardStatus(t)),
            Err(e) => Err(e),
        },
        QueryMsg::PlayerTurn { room_number } => match query_player_turn(storage, room_number) {
            Ok(t) => Ok(QueryAnswer::PlayerTurn(t)),
            Err(e) => Err(e),
        },
        QueryMsg::GameStatus { room_number } => match query_game_status(storage, room_number) {
            Ok(g) => Ok(QueryAnswer::GameStatus(g)),
            Err(e) => Err(e),
        },
        QueryMsg::RoomExist { room_number } => Ok(
            QueryAnswer::RoomExist(query_room_exist(storage, room_number)),
        ),
        QueryMsg::RoomList { page_number } => match query_list_rooms(storage, page_number) {
            Ok(p) => Ok(QueryAnswer::RoomList(p)),
            Err(e) => Err(e),
        },
    }
}

} // verus!
