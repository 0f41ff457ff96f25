use tictactoe::Game;
use tictactoe::GameError;
use tictactoe::GameStatus;
use tictactoe::Move;
use tictactoe::Player;

fn human(id: &str) -> Player {
    Player::Human(id.to_string())
}

fn mv(p: Player, position: u32, turn: u32) -> Move {
    Move { player: p, position, turn }
}

fn session_with(x_cells: &[u32], o_cells: &[u32]) -> Game {
    let mut g = Game::start("p1".to_string());
    let mut turn = 1;
    for &pos in x_cells {
        assert!(g.make_move(mv(human("p1"), pos, turn)).is_ok());
        turn += 1;
    }
    for &pos in o_cells {
        assert!(g.make_move(mv(Player::Computer, pos, turn)).is_ok());
        turn += 1;
    }
    g
}

#[test]
fn selector_blocks_a_two_in_line_threat() {
    // the human threatens 1-2-3; the computer owns 4 and 7 with no win at hand
    let g = session_with(&[1, 2], &[4, 7]);
    let m = g.best_next_move(Player::Computer).expect("a move is available");
    assert_eq!(m.player, Player::Computer);
    assert_eq!(m.position, 3);
    assert_eq!(m.turn, 5);
}

#[test]
fn selector_takes_a_win_over_a_block() {
    // the computer can complete 4-5-6; the human threatens 1-2-3
    let g = session_with(&[1, 2], &[4, 5]);
    let m = g.best_next_move(Player::Computer).expect("a move is available");
    assert_eq!(m.player, Player::Computer);
    assert_eq!(m.position, 6);
}

#[test]
fn selector_takes_the_center_when_no_line_presses() {
    let g = session_with(&[1], &[]);
    let m = g.best_next_move(Player::Computer).expect("a move is available");
    assert_eq!(m.position, 5);
}

#[test]
fn selector_falls_back_to_corners_then_sides_in_order() {
    // center taken, no two-in-line threat anywhere
    let g = session_with(&[5], &[]);
    let m = g.best_next_move(Player::Computer).expect("a move is available");
    assert_eq!(m.position, 1);

    // center and the first corner taken without a threat
    let g2 = session_with(&[1], &[5]);
    let m2 = g2.best_next_move(Player::Computer).expect("a move is available");
    assert_eq!(m2.position, 3);

    // center and every corner taken without a threat: the first free side
    let g3 = session_with(&[1, 9], &[5, 3, 7]);
    let m3 = g3.best_next_move(Player::Computer).expect("a move is available");
    assert_eq!(m3.position, 2);
}

#[test]
fn selector_is_deterministic() {
    let g = session_with(&[1, 2], &[4, 7]);
    let first = g.best_next_move(Player::Computer).expect("a move is available");
    let second = g.best_next_move(Player::Computer).expect("a move is available");
    assert_eq!(first.player, second.player);
    assert_eq!(first.position, second.position);
    assert_eq!(first.turn, second.turn);
}

#[test]
fn selector_fails_only_on_a_full_board() {
    let g = session_with(&[1, 3, 4, 8, 9], &[2, 5, 6, 7]);
    match g.best_next_move(Player::Computer) {
        Err(GameError::NoMovesAvailable) => {},
        _ => panic!("expected the selector to find no cell"),
    }
}

#[test]
fn each_line_filled_by_one_player_wins() {
    let lines: [[u32; 3]; 8] = [
        [1, 2, 3],
        [4, 5, 6],
        [7, 8, 9],
        [1, 4, 7],
        [2, 5, 8],
        [3, 6, 9],
        [1, 5, 9],
        [3, 5, 7],
    ];
    for line in lines {
        let mut g = Game::start("p1".to_string());
        let mut turn = 1;
        for pos in line {
            assert!(g.make_move(mv(human("p1"), pos, turn)).is_ok());
            turn += 1;
        }
        assert_eq!(g.has_won(), Some(human("p1")));
        g.check_for_complete();
        assert_eq!(g.status, GameStatus::Complete);
        assert_eq!(g.winner, Some(human("p1")));
    }
}

#[test]
fn winner_is_the_owner_of_the_completed_line() {
    let mut g = Game::start("p1".to_string());
    let mut turn = 1;
    for pos in [2, 5, 8] {
        assert!(g.make_move(mv(Player::Computer, pos, turn)).is_ok());
        turn += 1;
    }
    assert_eq!(g.has_won(), Some(Player::Computer));
}

#[test]
fn blocking_reply_arrives_through_orchestration() {
    let mut g = Game::start("p1".to_string());
    assert!(g.apply_player_move(1, "p1".to_string()).is_ok());
    // computer took the center; a second corner move threatens 1-2-3 or 1-4-7
    assert!(g.apply_player_move(2, "p1".to_string()).is_ok());
    assert_eq!(g.moves.len(), 4);
    assert_eq!(g.moves[1].position, 5);
    assert_eq!(g.moves[3].player, Player::Computer);
    assert_eq!(g.moves[3].position, 3);
    assert_eq!(g.status, GameStatus::InProgress);
}
