use tictactoe::ai::{
    find_computer_move, find_easy_move, find_hard_move, find_winning_move, PlayerType,
};
use tictactoe::board::{Board, Player};

fn board_of(cells: [[Option<Player>; 3]; 3]) -> Board {
    let mut b = Board::empty();
    for (r, row) in cells.iter().enumerate() {
        for (c, cell) in row.iter().enumerate() {
            b.set(r, c, *cell);
        }
    }
    b
}

const X: Option<Player> = Some(Player::X);
const O: Option<Player> = Some(Player::O);
const E: Option<Player> = None;

#[test]
fn tier_labels() {
    assert_eq!(PlayerType::Human.label(), "Human");
    assert_eq!(PlayerType::ComputerEasy.label(), "Computer Easy");
    assert_eq!(PlayerType::ComputerHard.label(), "Computer Hard");
}

#[test]
fn hard_ai_takes_its_own_win_over_blocking() {
    // X X .
    // O O .
    // . . .
    let b = board_of([[X, X, E], [O, O, E], [E, E, E]]);
    // X to move: complete row 0 rather than block row 1.
    assert_eq!(find_hard_move(&b, Player::X), Some((0, 2)));
    // O to move on the same board: O's own win-now at (1, 2) comes first.
    assert_eq!(find_hard_move(&b, Player::O), Some((1, 2)));
}

#[test]
fn hard_ai_blocks_when_it_cannot_win() {
    // X X .
    // . . .
    // . . .
    let b = board_of([[X, X, E], [E, E, E], [E, E, E]]);
    assert_eq!(find_hard_move(&b, Player::O), Some((0, 2)));
}

#[test]
fn hard_ai_takes_center_on_an_empty_board() {
    let b = Board::empty();
    assert_eq!(find_hard_move(&b, Player::X), Some((1, 1)));
    assert_eq!(find_hard_move(&b, Player::O), Some((1, 1)));
}

#[test]
fn hard_ai_takes_first_free_corner_when_center_is_taken() {
    // Only the center is occupied: no win, no block, corner scan starts at
    // (0, 0).
    let b = board_of([[E, E, E], [E, O, E], [E, E, E]]);
    assert_eq!(find_hard_move(&b, Player::X), Some((0, 0)));
    // With (0, 0) also taken the scan moves on to (0, 2).
    let b = board_of([[O, E, E], [E, X, E], [E, E, E]]);
    assert_eq!(find_hard_move(&b, Player::X), Some((0, 2)));
}

#[test]
fn hard_ai_falls_back_to_an_empty_cell() {
    // Center and corners taken, no line can be completed by either side:
    // the only empty cell is the random fallback's single choice.
    // X . O
    // O O X
    // X X O
    let b = board_of([[X, E, O], [O, O, X], [X, X, O]]);
    assert_eq!(find_hard_move(&b, Player::X), Some((0, 1)));
    assert_eq!(find_hard_move(&b, Player::O), Some((0, 1)));
}

#[test]
fn hard_ai_returns_none_only_on_a_full_board() {
    let b = board_of([[X, X, O], [O, O, X], [X, X, O]]);
    assert_eq!(find_hard_move(&b, Player::X), None);
}

#[test]
fn winning_move_scan_is_row_major() {
    // O can complete either column 0 at (2, 0) or row 2 at (2, 0)/(2, 1)...
    // pick a board with two winning cells and check the first in row-major
    // order is chosen: O wins at (0, 2) (row 0) and at (2, 1) (column 1).
    let b = board_of([[O, O, E], [X, O, X], [E, E, E]]);
    assert_eq!(find_winning_move(&b, Player::O), Some((0, 2)));
}

#[test]
fn no_winning_move_on_an_empty_board() {
    let b = Board::empty();
    assert_eq!(find_winning_move(&b, Player::X), None);
    assert_eq!(find_winning_move(&b, Player::O), None);
}

#[test]
fn easy_ai_returns_none_only_on_a_full_board() {
    let full = board_of([[X, X, O], [O, O, X], [X, X, O]]);
    assert_eq!(find_easy_move(&full), None);
    let one_left = board_of([[X, E, O], [O, O, X], [X, X, O]]);
    assert_eq!(find_easy_move(&one_left), Some((0, 1)));
}

#[test]
fn easy_ai_only_proposes_empty_cells_and_reaches_them_all() {
    let b = board_of([[X, E, E], [E, O, E], [E, E, E]]);
    let mut seen = [[false; 3]; 3];
    for _ in 0..500 {
        let (r, c) = find_easy_move(&b).expect("board is not full");
        assert!(r < 3 && c < 3);
        assert_eq!(b.get(r, c), None, "proposed an occupied cell");
        seen[r][c] = true;
    }
    // Every empty cell should come up at least once in 500 uniform draws.
    for r in 0..3 {
        for c in 0..3 {
            if b.get(r, c).is_none() {
                assert!(seen[r][c], "cell ({r}, {c}) was never proposed");
            }
        }
    }
}

#[test]
fn human_proposes_no_move() {
    let b = Board::empty();
    assert_eq!(find_computer_move(&b, PlayerType::Human, Player::X), None);
}

#[test]
fn computer_move_dispatches_by_tier() {
    let b = board_of([[X, X, E], [O, O, E], [E, E, E]]);
    assert_eq!(
        find_computer_move(&b, PlayerType::ComputerHard, Player::X),
        Some((0, 2))
    );
    let m = find_computer_move(&b, PlayerType::ComputerEasy, Player::X).unwrap();
    assert_eq!(b.get(m.0, m.1), None);
}
