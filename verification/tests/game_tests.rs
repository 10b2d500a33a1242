use tictactoe::board::{GameOutcome, MoveError, Player, WinningLine};
use tictactoe::game::GameState;

#[test]
fn fresh_game_starts_empty_with_x_to_move() {
    let g = GameState::new();
    assert_eq!(g.turn, Player::X);
    assert_eq!(g.moves, 0);
    assert_eq!(g.outcome, GameOutcome::InProgress);
    for r in 0..3 {
        for c in 0..3 {
            assert_eq!(g.board.get(r, c), None);
        }
    }
}

#[test]
fn turn_alternates_while_in_progress() {
    let mut g = GameState::new();
    // A run with no three-in-a-row: the turn must go X, O, X, O, ...
    let moves = [(0, 0), (1, 1), (2, 2), (0, 1), (2, 1)];
    for (i, (r, c)) in moves.iter().enumerate() {
        let expected = if i % 2 == 0 { Player::X } else { Player::O };
        assert_eq!(g.turn, expected);
        let result = g.apply_move(*r, *c, g.turn);
        assert_eq!(result, Ok(GameOutcome::InProgress));
    }
    assert_eq!(g.turn, Player::O);
    assert_eq!(g.moves, 5);
}

#[test]
fn winning_move_freezes_turn_and_reports_line() {
    let mut g = GameState::new();
    for (r, c) in [(0, 0), (1, 0), (0, 1), (1, 1)] {
        g.apply_move(r, c, g.turn).unwrap();
    }
    let result = g.apply_move(0, 2, g.turn);
    let expected_line = WinningLine { start_row: 0, start_col: 0, end_row: 0, end_col: 2 };
    assert_eq!(result, Ok(GameOutcome::Win(Player::X, expected_line)));
    assert_eq!(g.outcome, GameOutcome::Win(Player::X, expected_line));
    // The turn is not flipped once the game has ended.
    assert_eq!(g.turn, Player::X);
}

#[test]
fn ninth_move_without_line_is_a_draw() {
    let mut g = GameState::new();
    let moves = [
        (0, 0),
        (1, 0),
        (0, 1),
        (1, 1),
        (1, 2),
        (0, 2),
        (2, 0),
        (2, 2),
        (2, 1),
    ];
    for (r, c) in moves {
        g.apply_move(r, c, g.turn).unwrap();
    }
    assert_eq!(g.moves, 9);
    assert_eq!(g.outcome, GameOutcome::Draw);
}

fn snapshot(g: &GameState) -> ([[Option<Player>; 3]; 3], Player, u32, GameOutcome) {
    let mut cells = [[None; 3]; 3];
    for r in 0..3 {
        for c in 0..3 {
            cells[r][c] = g.board.get(r, c);
        }
    }
    (cells, g.turn, g.moves, g.outcome)
}

#[test]
fn out_of_bounds_move_is_rejected_without_any_change() {
    let mut g = GameState::new();
    g.apply_move(0, 0, Player::X).unwrap();
    let before = snapshot(&g);
    assert_eq!(g.apply_move(3, 0, g.turn), Err(MoveError::OutOfBounds));
    assert_eq!(g.apply_move(0, 7, g.turn), Err(MoveError::OutOfBounds));
    assert_eq!(snapshot(&g), before);
}

#[test]
fn occupied_cell_move_is_rejected_without_any_change() {
    let mut g = GameState::new();
    g.apply_move(1, 1, Player::X).unwrap();
    let before = snapshot(&g);
    assert_eq!(g.apply_move(1, 1, g.turn), Err(MoveError::CellOccupied));
    assert_eq!(snapshot(&g), before);
}

#[test]
fn move_after_game_over_is_rejected_without_any_change() {
    let mut g = GameState::new();
    for (r, c) in [(0, 0), (1, 0), (0, 1), (1, 1), (0, 2)] {
        g.apply_move(r, c, g.turn).unwrap();
    }
    assert!(matches!(g.outcome, GameOutcome::Win(Player::X, _)));
    let before = snapshot(&g);
    assert_eq!(g.apply_move(2, 2, g.turn), Err(MoveError::GameAlreadyOver));
    assert_eq!(snapshot(&g), before);
}

#[test]
fn reset_restores_the_initial_state() {
    let mut g = GameState::new();
    for (r, c) in [(0, 0), (1, 0), (0, 1)] {
        g.apply_move(r, c, g.turn).unwrap();
    }
    g.reset();
    assert_eq!(snapshot(&g), snapshot(&GameState::new()));
}
