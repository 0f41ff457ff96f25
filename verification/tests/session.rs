use tictactoe::Game;
use tictactoe::GameError;
use tictactoe::GameStatus;
use tictactoe::Move;
use tictactoe::Outcome;
use tictactoe::Player;

fn human(id: &str) -> Player {
    Player::Human(id.to_string())
}

fn mv(p: Player, position: u32, turn: u32) -> Move {
    Move { player: p, position, turn }
}

#[test]
fn start_has_two_players_and_no_moves() {
    let g = Game::start("p1".to_string());
    assert_eq!(g.status, GameStatus::NotStarted);
    assert_eq!(g.players.len(), 2);
    assert_eq!(g.players[0], human("p1"));
    assert_eq!(g.players[1], Player::Computer);
    assert_eq!(g.moves.len(), 0);
    assert!(g.winner.is_none());
}

#[test]
fn fresh_identifiers_are_hyphenated_uuids() {
    let a = Game::new_local();
    let b = Game::new_local();
    assert_eq!(a.id.len(), 36);
    assert_eq!(b.id.len(), 36);
    assert_ne!(a.id, b.id);
}

#[test]
fn first_move_center_draws_corner_reply() {
    let mut g = Game::start("p1".to_string());
    let r = g.apply_player_move(5, "p1".to_string());
    assert!(r.is_ok());
    assert_eq!(g.status, GameStatus::InProgress);
    assert_eq!(g.moves.len(), 2);
    assert_eq!(g.moves[0].player, human("p1"));
    assert_eq!(g.moves[0].position, 5);
    assert_eq!(g.moves[0].turn, 1);
    assert_eq!(g.moves[1].player, Player::Computer);
    assert_eq!(g.moves[1].position, 1);
    assert_eq!(g.moves[1].turn, 2);
}

#[test]
fn completed_row_wins_and_completes_session() {
    let mut g = Game::start("p1".to_string());
    assert!(g.make_move(mv(human("p1"), 1, 1)).is_ok());
    assert!(g.make_move(mv(human("p1"), 2, 2)).is_ok());
    assert!(g.make_move(mv(human("p1"), 3, 3)).is_ok());
    match g.evaluate_outcome() {
        Outcome::Won(p) => assert_eq!(p, human("p1")),
        _ => panic!("expected a win"),
    }
    g.check_for_complete();
    assert_eq!(g.status, GameStatus::Complete);
    assert_eq!(g.winner, Some(human("p1")));
}

#[test]
fn exhausted_board_without_line_is_a_draw() {
    let mut g = Game::start("p1".to_string());
    // x: 1 3 4 8 9 / o: 2 5 6 7 leaves no line fully owned
    let x = [1, 3, 4, 8, 9];
    let o = [2, 5, 6, 7];
    let mut turn = 1;
    for pos in x {
        assert!(g.make_move(mv(human("p1"), pos, turn)).is_ok());
        turn += 1;
    }
    for pos in o {
        assert!(g.make_move(mv(Player::Computer, pos, turn)).is_ok());
        turn += 1;
    }
    assert!(matches!(g.evaluate_outcome(), Outcome::Draw));
    g.check_for_complete();
    assert_eq!(g.status, GameStatus::Complete);
    assert!(g.winner.is_none());
}

#[test]
fn occupied_position_is_rejected_and_session_unchanged() {
    let mut g = Game::start("p1".to_string());
    assert!(g.apply_player_move(5, "p1".to_string()).is_ok());
    let moves_before: Vec<(u32, u32)> = g.moves.iter().map(|m| (m.position, m.turn)).collect();
    let status_before = g.status.clone();
    let r = g.apply_player_move(5, "p1".to_string());
    assert_eq!(r, Err(GameError::PositionOccupied));
    let moves_after: Vec<(u32, u32)> = g.moves.iter().map(|m| (m.position, m.turn)).collect();
    assert_eq!(moves_before, moves_after);
    assert_eq!(status_before, g.status);
    assert!(g.winner.is_none());
}

#[test]
fn move_on_complete_session_is_rejected() {
    let mut g = Game::start("p1".to_string());
    assert!(g.make_move(mv(human("p1"), 1, 1)).is_ok());
    assert!(g.make_move(mv(human("p1"), 2, 2)).is_ok());
    assert!(g.make_move(mv(human("p1"), 3, 3)).is_ok());
    g.check_for_complete();
    assert_eq!(g.status, GameStatus::Complete);
    let r = g.is_valid_move(mv(human("p1"), 7, 4));
    assert!(matches!(r, Err(GameError::GameAlreadyComplete)));
}

#[test]
fn full_board_is_rejected_before_position_checks() {
    let mut g = Game::start("p1".to_string());
    let x = [1, 3, 4, 8, 9];
    let o = [2, 5, 6, 7];
    let mut turn = 1;
    for pos in x {
        assert!(g.make_move(mv(human("p1"), pos, turn)).is_ok());
        turn += 1;
    }
    for pos in o {
        assert!(g.make_move(mv(Player::Computer, pos, turn)).is_ok());
        turn += 1;
    }
    // the session has not been evaluated, so it is full but not complete
    assert_eq!(g.status, GameStatus::InProgress);
    let r = g.is_valid_move(mv(human("p1"), 1, 10));
    assert!(matches!(r, Err(GameError::BoardFull)));
}

#[test]
fn positions_off_the_board_are_rejected() {
    let mut g = Game::start("p1".to_string());
    assert!(matches!(g.is_valid_move(mv(human("p1"), 0, 1)), Err(GameError::InvalidPosition)));
    assert!(matches!(g.is_valid_move(mv(human("p1"), 10, 1)), Err(GameError::InvalidPosition)));
    assert_eq!(g.apply_player_move(0, "p1".to_string()), Err(GameError::InvalidPosition));
    assert_eq!(g.moves.len(), 0);
    assert_eq!(g.status, GameStatus::NotStarted);
}

#[test]
fn third_player_is_rejected() {
    let g = Game::start("p1".to_string());
    match g.add_player(human("p2")) {
        Err(GameError::MaxPlayersReached) => {},
        _ => panic!("expected the third participant to be rejected"),
    }
}

#[test]
fn players_join_in_order() {
    let g = Game::new_local();
    let g = g.add_player(human("p1")).expect("first participant joins");
    let g = g.add_player(Player::Computer).expect("second participant joins");
    assert_eq!(g.players, vec![human("p1"), Player::Computer]);
}

#[test]
fn open_session_reports_ongoing() {
    let mut g = Game::start("p1".to_string());
    assert!(g.make_move(mv(human("p1"), 5, 1)).is_ok());
    assert!(matches!(g.evaluate_outcome(), Outcome::Ongoing));
    g.check_for_complete();
    assert_eq!(g.status, GameStatus::InProgress);
}

#[test]
fn player_equality_is_by_variant_and_id() {
    assert_eq!(Player::Computer, Player::Computer);
    assert_eq!(human("p1"), human("p1"));
    assert_ne!(human("p1"), human("p2"));
    assert_ne!(human("p1"), Player::Computer);
}

#[test]
fn well_formed_checks_accept_library_sessions() {
    let mut g = Game::start("p1".to_string());
    assert!(g.is_well_formed());
    assert!(g.has_human_player());
    assert!(g.apply_player_move(5, "p1".to_string()).is_ok());
    assert!(g.is_well_formed());
}

#[test]
fn well_formed_checks_reject_corrupt_records() {
    let mut g = Game::start("p1".to_string());
    assert!(g.apply_player_move(5, "p1".to_string()).is_ok());
    // a winner on an open session cannot come from this library
    g.winner = Some(human("p1"));
    assert!(!g.is_well_formed());

    let mut h = Game::start("p1".to_string());
    // two moves on one cell cannot come from this library
    h.moves = vec![mv(human("p1"), 5, 1), mv(Player::Computer, 5, 2)];
    h.status = GameStatus::InProgress;
    assert!(!h.is_well_formed());
}
