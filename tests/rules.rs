use iks_oks::board::Board;
use iks_oks::cell::{Cell, Coordinates};
use iks_oks::contract::{
    add_room, instantiate, play_move, query_game_status, query_list_rooms, query_player_turn,
    query_room_exist, query_table_status, settle_move,
};
use iks_oks::error::ContractError;
use iks_oks::funds::{collect_funds, Coin};
use iks_oks::msg::ResponseData;
use iks_oks::room::{GameState, Room};
use iks_oks::state::{ContractStorage, State};

fn ioc(amount: u128) -> Vec<Coin> {
    vec![Coin { denom: "ioc".to_string(), amount }]
}

fn s(text: &str) -> String {
    text.to_string()
}

fn store_with_room() -> ContractStorage {
    let mut storage = ContractStorage::new();
    instantiate(&mut storage);
    add_room(&mut storage, s("alice"), s("bob")).unwrap();
    storage
}

fn owner(room: &Room, x: u8, y: u8) -> Option<String> {
    room.board.cells[Coordinates::new(x, y).index()].player.clone()
}

#[test]
fn coordinates_index_is_row_major() {
    assert_eq!(Coordinates::new(0, 0).index(), 0);
    assert_eq!(Coordinates::new(1, 2).index(), 5);
    assert_eq!(Coordinates::new(2, 1).index(), 7);
    assert!(Coordinates::new(2, 2).is_valid());
    assert!(!Coordinates::new(3, 0).is_valid());
}

#[test]
fn new_board_is_empty_and_ordered() {
    let board = Board::new();
    assert_eq!(board.cells.len(), 9);
    for (i, cell) in board.cells.iter().enumerate() {
        assert_eq!(cell.coordinates.index(), i);
        assert_eq!(cell.player, None);
        assert_eq!(cell.sign, "");
    }
}

#[test]
fn occupied_cell_cannot_be_taken_again() {
    let mut board = Board::new();
    assert!(board.occupy_cell(s("alice"), Coordinates::new(1, 1), s("X")));
    assert!(!board.occupy_cell(s("bob"), Coordinates::new(1, 1), s("O")));
    assert_eq!(board.cells[4].player, Some(s("alice")));
    assert_eq!(board.cells[4].sign, "X");
}

#[test]
fn top_row_wins_after_third_mark() {
    let mut board = Board::new();
    board.occupy_cell(s("alice"), Coordinates::new(0, 0), s("X"));
    board.occupy_cell(s("alice"), Coordinates::new(0, 1), s("X"));
    assert!(!board.check_for_win(Coordinates::new(0, 1)));
    board.occupy_cell(s("alice"), Coordinates::new(0, 2), s("X"));
    assert!(board.check_for_win(Coordinates::new(0, 2)));
    assert!(board.check_for_win(Coordinates::new(0, 0)));
}

#[test]
fn diagonals_and_mixed_lines() {
    let mut board = Board::new();
    board.occupy_cell(s("bob"), Coordinates::new(0, 2), s("O"));
    board.occupy_cell(s("bob"), Coordinates::new(1, 1), s("O"));
    board.occupy_cell(s("alice"), Coordinates::new(2, 0), s("X"));
    assert!(!board.check_for_win(Coordinates::new(1, 1)));
    let mut board = Board::new();
    board.occupy_cell(s("bob"), Coordinates::new(0, 2), s("O"));
    board.occupy_cell(s("bob"), Coordinates::new(1, 1), s("O"));
    board.occupy_cell(s("bob"), Coordinates::new(2, 0), s("O"));
    assert!(board.check_for_win(Coordinates::new(2, 0)));
}

#[test]
fn empty_cell_never_wins() {
    let board = Board::new();
    assert!(!board.check_for_win(Coordinates::new(1, 1)));
}

#[test]
fn drawing_of_a_board() {
    let mut board = Board::new();
    let row = "||  |  |  ||--------------\n            ";
    let empty = format!("-------------\n        {}{}{}", row, row, row);
    assert_eq!(board.draw_board(), empty);
    board.occupy_cell(s("alice"), Coordinates::new(0, 1), s("X"));
    board.occupy_cell(s("bob"), Coordinates::new(2, 2), s("O"));
    let drawn = format!(
        "-------------\n        {}{}{}",
        "||  | X |  ||--------------\n            ",
        row,
        "||  |  | O ||--------------\n            ",
    );
    assert_eq!(board.draw_board(), drawn);
}

#[test]
fn restart_board_clears_every_cell() {
    let mut board = Board::new();
    board.occupy_cell(s("alice"), Coordinates::new(0, 0), s("X"));
    board.occupy_cell(s("bob"), Coordinates::new(2, 1), s("O"));
    let fresh = board.restart_board();
    assert_eq!(fresh, Board::new());
}

#[test]
fn cell_restart_keeps_position() {
    let mut cell = Cell::new(Coordinates::new(2, 1));
    cell.player = Some(s("alice"));
    cell.sign = s("X");
    let cleared = cell.restart();
    assert_eq!(cleared.coordinates, Coordinates::new(2, 1));
    assert_eq!(cleared.player, None);
    assert_eq!(cleared.sign, "");
}

#[test]
fn move_out_of_turn_changes_nothing() {
    let mut room = Room::new(s("alice"), s("bob"));
    let before = room.clone();
    assert_eq!(room.play_move(&s("bob"), 10, Coordinates::new(0, 0)), Err(ContractError::NotYourTurn));
    assert_eq!(room, before);
    assert_eq!(room.play_move(&s("carol"), 10, Coordinates::new(0, 0)), Err(ContractError::NotYourTurn));
    assert_eq!(room, before);
}

#[test]
fn turn_alternates_between_the_two_players() {
    let mut room = Room::new(s("alice"), s("bob"));
    assert_eq!(room.turn, "alice");
    room.play_move(&s("alice"), 1, Coordinates::new(0, 0)).unwrap();
    assert_eq!(room.turn, "bob");
    room.play_move(&s("bob"), 1, Coordinates::new(1, 1)).unwrap();
    assert_eq!(room.turn, "alice");
    room.play_move(&s("alice"), 1, Coordinates::new(2, 2)).unwrap();
    assert_eq!(room.turn, "bob");
    assert_eq!(room.player1, "alice");
    assert_eq!(room.player2, "bob");
    assert_eq!(room.board.cells[0].sign, "X");
    assert_eq!(room.board.cells[4].sign, "O");
}

#[test]
fn held_cell_stays_held() {
    let mut room = Room::new(s("alice"), s("bob"));
    room.play_move(&s("alice"), 1, Coordinates::new(1, 1)).unwrap();
    assert_eq!(room.play_move(&s("bob"), 1, Coordinates::new(1, 1)), Err(ContractError::CellOccupied));
    room.play_move(&s("bob"), 1, Coordinates::new(0, 0)).unwrap();
    assert_eq!(owner(&room, 1, 1), Some(s("alice")));
    assert_eq!(owner(&room, 0, 0), Some(s("bob")));
}

#[test]
fn ninth_move_without_line_ties() {
    let mut room = Room::new(s("alice"), s("bob"));
    let order = [(0, 0), (0, 1), (0, 2), (2, 0), (2, 1), (2, 2), (1, 0), (1, 1), (1, 2)];
    for (i, (x, y)) in order.iter().enumerate() {
        let mover = if i % 2 == 0 { s("alice") } else { s("bob") };
        assert_eq!(room.play_move(&mover, 2, Coordinates::new(*x, *y)), Ok(None));
    }
    assert_eq!(room.game_state, GameState::Tie);
    assert_eq!(room.no_moves, 9);
    assert_eq!(room.total_coins_raised, 18);
    assert_eq!(room.play_move(&s("bob"), 2, Coordinates::new(0, 0)), Err(ContractError::GameEnded));
}

#[test]
fn winning_scenario_pays_once() {
    let mut storage = store_with_room();
    let a = s("alice");
    let b = s("bob");
    let moves = [(&a, 0, 0), (&b, 1, 1), (&a, 0, 1), (&b, 2, 2)];
    for (who, x, y) in moves.iter() {
        let resp = play_move(&mut storage, who, &ioc(10), Coordinates::new(*x, *y), 0).unwrap();
        assert!(resp.messages.is_empty());
    }
    let resp = play_move(&mut storage, &a, &ioc(10), Coordinates::new(0, 2), 0).unwrap();
    assert_eq!(resp.messages.len(), 1);
    assert_eq!(resp.messages[0].to_address, "alice");
    assert_eq!(resp.messages[0].amount, 25);
    match &resp.data {
        ResponseData::Board(board) => assert_eq!(board.cells[2].player, Some(s("alice"))),
        ResponseData::RoomNumber(_) => panic!("a move answers the board"),
    }
    let room = Room::load_room(0, &storage).unwrap();
    assert_eq!(room.game_state, GameState::GameWon { player: s("alice") });
    assert_eq!(room.total_coins_raised, 50);
    assert_eq!(State::load_state(&storage).unwrap().balance, 25);
    assert_eq!(query_game_status(&storage, 0).unwrap().status, "Won by alice");
    assert_eq!(
        play_move(&mut storage, &b, &ioc(10), Coordinates::new(2, 0), 0).unwrap_err(),
        ContractError::GameEnded
    );
    assert_eq!(State::load_state(&storage).unwrap().balance, 25);
}

#[test]
fn restart_resets_any_game() {
    let mut room = Room::new(s("alice"), s("bob"));
    for (who, x, y) in [("alice", 0, 0), ("bob", 1, 0), ("alice", 0, 1), ("bob", 1, 1), ("alice", 0, 2)] {
        room.play_move(&s(who), 7, Coordinates::new(x, y)).unwrap();
    }
    assert_eq!(room.game_state, GameState::GameWon { player: s("alice") });
    let fresh = room.restart_game();
    assert_eq!(fresh.no_moves, 0);
    assert_eq!(fresh.total_coins_raised, 0);
    assert_eq!(fresh.game_state, GameState::InProgress);
    assert_eq!(fresh.turn, "alice");
    assert!(fresh.board.cells.iter().all(|c| c.player.is_none() && c.sign.is_empty()));
    assert_eq!(fresh, Room::new(s("alice"), s("bob")));
}

#[test]
fn funds_are_summed() {
    let funds = vec![
        Coin { denom: s("ioc"), amount: 3 },
        Coin { denom: s("ioc"), amount: 4 },
    ];
    assert_eq!(collect_funds(&funds), Ok(7));
}

#[test]
fn funds_of_another_token_are_refused() {
    let funds = vec![
        Coin { denom: s("ioc"), amount: 3 },
        Coin { denom: s("atom"), amount: 4 },
    ];
    assert_eq!(collect_funds(&funds), Err(ContractError::InvalidDenom));
}

#[test]
fn no_funds_are_refused() {
    assert_eq!(collect_funds(&vec![]), Err(ContractError::NoFunds));
    assert_eq!(collect_funds(&ioc(0)), Err(ContractError::NoFunds));
}

#[test]
fn funds_that_overflow_are_refused() {
    let funds = vec![
        Coin { denom: s("ioc"), amount: u128::MAX },
        Coin { denom: s("ioc"), amount: 1 },
    ];
    assert_eq!(collect_funds(&funds), Err(ContractError::Overflow));
}

#[test]
fn move_errors_in_the_store() {
    let mut storage = store_with_room();
    let a = s("alice");
    assert_eq!(
        play_move(&mut storage, &a, &ioc(10), Coordinates::new(0, 0), 3).unwrap_err(),
        ContractError::RoomNotFound
    );
    assert_eq!(
        play_move(&mut storage, &a, &ioc(10), Coordinates::new(3, 0), 0).unwrap_err(),
        ContractError::OutOfBoard
    );
    assert_eq!(
        play_move(&mut storage, &a, &vec![], Coordinates::new(0, 0), 3).unwrap_err(),
        ContractError::NoFunds
    );
    play_move(&mut storage, &a, &ioc(u128::MAX), Coordinates::new(0, 0), 0).unwrap();
    assert_eq!(
        play_move(&mut storage, &s("bob"), &ioc(1), Coordinates::new(1, 0), 0).unwrap_err(),
        ContractError::Overflow
    );
    let room = Room::load_room(0, &storage).unwrap();
    assert_eq!(room.no_moves, 1);
    assert_eq!(room.turn, "bob");
}

#[test]
fn registry_errors() {
    let mut storage = ContractStorage::new();
    assert_eq!(add_room(&mut storage, s("a"), s("b")).unwrap_err(), ContractError::StateMissing);
    assert_eq!(query_list_rooms(&storage, 0).unwrap_err(), ContractError::StateMissing);
    instantiate(&mut storage);
    for n in 0..255u16 {
        let resp = add_room(&mut storage, s("a"), s("b")).unwrap();
        assert_eq!(resp.data, ResponseData::RoomNumber(n as u8));
    }
    assert_eq!(add_room(&mut storage, s("a"), s("b")).unwrap_err(), ContractError::RoomLimit);
    assert_eq!(State::load_state(&storage).unwrap().room_count, 255);
}

#[test]
fn instantiate_keeps_existing_registry() {
    let mut storage = store_with_room();
    instantiate(&mut storage);
    assert_eq!(State::load_state(&storage).unwrap().room_count, 1);
    assert!(Room::load_room(0, &storage).is_some());
}

#[test]
fn queries_project_the_room() {
    let mut storage = store_with_room();
    assert_eq!(query_player_turn(&storage, 0).unwrap().turn, "alice");
    assert_eq!(query_game_status(&storage, 0).unwrap().status, "InProgress");
    assert!(query_room_exist(&storage, 0).room_exist);
    assert!(!query_room_exist(&storage, 1).room_exist);
    assert_eq!(query_table_status(&storage, 1).unwrap_err(), ContractError::RoomNotFound);
    play_move(&mut storage, &s("alice"), &ioc(1), Coordinates::new(1, 1), 0).unwrap();
    assert_eq!(query_player_turn(&storage, 0).unwrap().turn, "bob");
    let status = query_table_status(&storage, 0).unwrap().status;
    assert!(status.contains("||  | X |  ||"));
}

#[test]
fn rooms_are_listed_ten_a_page() {
    let mut storage = ContractStorage::new();
    instantiate(&mut storage);
    for n in 0..12u8 {
        add_room(&mut storage, format!("p{}", n), s("other")).unwrap();
    }
    let first = query_list_rooms(&storage, 0).unwrap().list_rooms;
    assert_eq!(first.len(), 10);
    assert_eq!(first[0].as_ref().unwrap().player1, "p0");
    assert_eq!(first[9].as_ref().unwrap().player1, "p9");
    let second = query_list_rooms(&storage, 1).unwrap().list_rooms;
    assert_eq!(second.len(), 2);
    assert_eq!(second[0].as_ref().unwrap().player1, "p10");
    assert_eq!(second[1].as_ref().unwrap().player1, "p11");
    assert!(query_list_rooms(&storage, 2).unwrap().list_rooms.is_empty());
}

#[test]
fn settle_refuses_a_payout_the_balance_cannot_take() {
    let mut room = Room::new(s("alice"), s("bob"));
    for (who, x, y) in [("alice", 0, 0), ("bob", 1, 0), ("alice", 0, 1), ("bob", 1, 1)] {
        room.play_move(&s(who), 10, Coordinates::new(x, y)).unwrap();
    }
    let mut state = State { room_count: 1, balance: u128::MAX };
    let before = room.clone();
    assert_eq!(
        settle_move(&mut state, &mut room, &s("alice"), 10, Coordinates::new(0, 2)),
        Err(ContractError::Overflow)
    );
    assert_eq!(room, before);
    let mut state = State { room_count: 1, balance: 5 };
    let payout = settle_move(&mut state, &mut room, &s("alice"), 10, Coordinates::new(0, 2)).unwrap().unwrap();
    assert_eq!(payout.amount, 25);
    assert_eq!(state.balance, 30);
}
