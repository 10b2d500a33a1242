//! The 3-by-3 grid and the rules that read it: which player, if any, has
//! completed a line of three, and whether a game is won, drawn or still
//! in progress.

use vstd::prelude::*;

verus! {

/// A mark on the board: one of the two sides.
#[derive(Clone, Copy, PartialEq, Eq, Structural, Debug)]
pub enum Player {
    X,
    O,
}

impl Player {
    /// The opposing side.
    pub open spec fn spec_other(&self) -> Player {
        match self {
            Player::X => Player::O,
            Player::O => Player::X,
        }
    }

    /// The opposing side: X and O swap.
    #[verifier::when_used_as_spec(spec_other)]
    pub fn other(&self) -> (r: Player)
        ensures
            r == self.spec_other(),
    {
        match self {
            Player::X => Player::O,
            Player::O => Player::X,
        }
    }
}

/// The two endpoints, as (row, column) pairs, of a completed line of three.
/// Carries no rule semantics of its own; it only names which line matched.
#[derive(Clone, Copy, PartialEq, Eq, Structural, Debug)]
pub struct WinningLine {
    pub start_row: u8,
    pub start_col: u8,
    pub end_row: u8,
    pub end_col: u8,
}

/// What the rules say about a board.
#[derive(Clone, Copy, PartialEq, Eq, Structural, Debug)]
pub enum GameOutcome {
    InProgress,
    Win(Player, WinningLine),
    Draw,
}

/// Why a proposed move was rejected.
#[derive(Clone, Copy, PartialEq, Eq, Structural, Debug)]
pub enum MoveError {
    OutOfBounds,
    CellOccupied,
    GameAlreadyOver,
}

/// The 3-by-3 grid, stored row-major: cell (r, c) sits at index 3 * r + c.
pub struct Board {
    cells: Vec<Option<Player>>,
}

impl View for Board {
    type V = Seq<Option<Player>>;

    closed spec fn view(&self) -> Seq<Option<Player>> {
        self.cells@
    }
}

/// A board of all-empty cells.
pub open spec fn empty_board() -> Seq<Option<Player>> {
    Seq::new(9, |i: int| None::<Player>)
}

/// Every cell holds a mark.
pub open spec fn board_full(b: Seq<Option<Player>>) -> bool {
    forall|i: int| 0 <= i < 9 ==> b[i] is Some
}

/// 1 for an occupied cell, 0 for an empty one.
pub open spec fn mark_weight(c: Option<Player>) -> nat {
    if c is Some {
        1
    } else {
        0
    }
}

/// How many cells hold a mark.
pub open spec fn num_marks(b: Seq<Option<Player>>) -> nat
    recommends
        b.len() == 9,
{
    mark_weight(b[0]) + mark_weight(b[1]) + mark_weight(b[2]) + mark_weight(b[3]) + mark_weight(
        b[4],
    ) + mark_weight(b[5]) + mark_weight(b[6]) + mark_weight(b[7]) + mark_weight(b[8])
}

/// The player holding all three given cells, if any.
pub open spec fn three_winner(a: Option<Player>, b: Option<Player>, c: Option<Player>) -> Option<
    Player,
> {
    if a is Some && a == b && a == c {
        a
    } else {
        None
    }
}

/// The cell indices of the eight lines of three, in the order the rules scan
/// them: rows top to bottom, then columns left to right, then the falling
/// diagonal, then the rising diagonal.
pub open spec fn line_cells(l: int) -> (int, int, int) {
    if l == 0 {
        (0, 1, 2)
    } else if l == 1 {
        (3, 4, 5)
    } else if l == 2 {
        (6, 7, 8)
    } else if l == 3 {
        (0, 3, 6)
    } else if l == 4 {
        (1, 4, 7)
    } else if l == 5 {
        (2, 5, 8)
    } else if l == 6 {
        (0, 4, 8)
    } else {
        (2, 4, 6)
    }
}

/// The endpoints reported for each line, matching `line_cells`.
pub open spec fn line_coords(l: int) -> WinningLine {
    if l == 0 {
        WinningLine { start_row: 0, start_col: 0, end_row: 0, end_col: 2 }
    } else if l == 1 {
        WinningLine { start_row: 1, start_col: 0, end_row: 1, end_col: 2 }
    } else if l == 2 {
        WinningLine { start_row: 2, start_col: 0, end_row: 2, end_col: 2 }
    } else if l == 3 {
        WinningLine { start_row: 0, start_col: 0, end_row: 2, end_col: 0 }
    } else if l == 4 {
        WinningLine { start_row: 0, start_col: 1, end_row: 2, end_col: 1 }
    } else if l == 5 {
        WinningLine { start_row: 0, start_col: 2, end_row: 2, end_col: 2 }
    } else if l == 6 {
        WinningLine { start_row: 0, start_col: 0, end_row: 2, end_col: 2 }
    } else {
        WinningLine { start_row: 0, start_col: 2, end_row: 2, end_col: 0 }
    }
}

/// The player who has completed line `l`, if any.
pub open spec fn line_winner(b: Seq<Option<Player>>, l: int) -> Option<Player> {
    three_winner(b[line_cells(l).0], b[line_cells(l).1], b[line_cells(l).2])
}

/// The first completed line in scan order, or 8 when no line is complete.
pub open spec fn first_won_line(b: Seq<Option<Player>>) -> int {
    if line_winner(b, 0) is Some {
        0
    } else if line_winner(b, 1) is Some {
        1
    } else if line_winner(b, 2) is Some {
        2
    } else if line_winner(b, 3) is Some {
        3
    } else if line_winner(b, 4) is Some {
        4
    } else if line_winner(b, 5) is Some {
        5
    } else if line_winner(b, 6) is Some {
        6
    } else if line_winner(b, 7) is Some {
        7
    } else {
        8
    }
}

/// The first completed line in scan order together with its owner.
pub open spec fn spec_check_winner(b: Seq<Option<Player>>) -> Option<(Player, WinningLine)> {
    let l = first_won_line(b);
    if l < 8 {
        match line_winner(b, l) {
            Some(p) => Some((p, line_coords(l))),
            None => None,
        }
    } else {
        None
    }
}

/// The line part of `spec_check_winner`: the coordinates alone, which is
/// all a strike-through needs.
pub open spec fn spec_winner_line(b: Seq<Option<Player>>) -> Option<WinningLine> {
    match spec_check_winner(b) {
        Some((p, line)) => Some(line),
        None => None,
    }
}

/// The outcome the rules assign to a board: the first completed line wins,
/// a full board with no completed line is a draw, anything else is still in
/// progress.
pub open spec fn spec_evaluate(b: Seq<Option<Player>>) -> GameOutcome {
    match spec_check_winner(b) {
        Some((p, line)) => GameOutcome::Win(p, line),
        None => if board_full(b) {
            GameOutcome::Draw
        } else {
            GameOutcome::InProgress
        },
    }
}

impl Board {
    /// Whether the grid has its nine cells.
    pub open spec fn wf(&self) -> bool {
        self@.len() == 9
    }

    /// A fresh board with every cell empty.
    pub fn empty() -> (b: Board)
        ensures
            b.wf(),
            b@ == empty_board(),
    {
        let mut cells: Vec<Option<Player>> = Vec::new();
        let mut i: usize = 0;
        while i < 9
            invariant
                i <= 9,
                cells@.len() == i,
                forall|j: int| 0 <= j < i ==> cells@[j] is None,
            decreases 9 - i,
        {
            cells.push(None);
            i = i + 1;
        }
        proof {
            assert(cells@ =~= empty_board());
        }
        Board { cells }
    }

    /// Read cell (row, col).
    pub fn get(&self, row: usize, col: usize) -> (cell: Option<Player>)
        requires
            self.wf(),
            row < 3,
            col < 3,
        ensures
            cell == self@[3 * row + col],
    {
        self.cells[3 * row + col]
    }

    /// Write cell (row, col).
    pub fn set(&mut self, row: usize, col: usize, cell: Option<Player>)
        requires
            old(self).wf(),
            row < 3,
            col < 3,
        ensures
            final(self).wf(),
            final(self)@ == old(self)@.update(3 * row + col, cell),
    {
        self.cells.set(3 * row + col, cell);
    }

    /// An independent copy of the grid, cell for cell.
    pub fn duplicate(&self) -> (r: Board)
        requires
            self.wf(),
        ensures
            r.wf(),
            r@ == self@,
    {
        let mut cells: Vec<Option<Player>> = Vec::new();
        let mut i: usize = 0;
        while i < 9
            invariant
                i <= 9,
                self.wf(),
                cells@.len() == i,
                forall|j: int| 0 <= j < i ==> cells@[j] == self@[j],
            decreases 9 - i,
        {
            cells.push(self.cells[i]);
            i = i + 1;
        }
        proof {
            assert(cells@ =~= self@);
        }
        Board { cells }
    }
}

/// Win detection is exhaustive over the eight lines: when a player holds all
/// of line `l` and no line earlier in scan order is complete, the board
/// evaluates to a win for that player reported with exactly that line's
/// coordinates. Lines later in scan order may hold anything.
pub proof fn lemma_win_detection(b: Seq<Option<Player>>, l: int, p: Player)
    requires
        0 <= l < 8,
        line_winner(b, l) == Some(p),
        forall|j: int| 0 <= j < l ==> line_winner(b, j) is None,
    ensures
        spec_evaluate(b) == GameOutcome::Win(p, line_coords(l)),
{
    assert(first_won_line(b) == l);
}

/// Draw detection: a board evaluates to a draw exactly when it is full and
/// no line is complete, and a drawn board always carries nine marks.
pub proof fn lemma_draw_detection(b: Seq<Option<Player>>)
    requires
        b.len() == 9,
    ensures
        spec_evaluate(b) is Draw <==> (board_full(b) && spec_check_winner(b) is None),
        spec_evaluate(b) is Draw ==> num_marks(b) == 9,
{
}

/// Evaluation is a pure function of the board contents: two boards holding
/// the same cells are assigned the same outcome. Together with the contract
/// of `evaluate`, whose result is pinned to `spec_evaluate` of an immutably
/// borrowed board, this says that evaluating never mutates its input and
/// that repeated calls agree.
pub proof fn lemma_evaluate_pure(b1: Board, b2: Board)
    requires
        b1@ == b2@,
    ensures
        spec_evaluate(b1@) == spec_evaluate(b2@),
{
}

/// The player holding all three given cells, if any.
fn winner_of(a: Option<Player>, b: Option<Player>, c: Option<Player>) -> (r: Option<Player>)
    ensures
        r == three_winner(a, b, c),
{
    match (a, b, c) {
        (Some(x), Some(y), Some(z)) => if x == y && y == z {
            Some(x)
        } else {
            None
        },
        _ => None,
    }
}

/// Scan the eight lines in rule order and report the first completed one
/// with its owner.
fn scan_winner(board: &Board) -> (r: Option<(Player, WinningLine)>)
    requires
        board.wf(),
    ensures
        r == spec_check_winner(board@),
{
    if let Some(p) = winner_of(board.get(0, 0), board.get(0, 1), board.get(0, 2)) {
        return Some((p, WinningLine { start_row: 0, start_col: 0, end_row: 0, end_col: 2 }));
    }
    if let Some(p) = winner_of(board.get(1, 0), board.get(1, 1), board.get(1, 2)) {
        return Some((p, WinningLine { start_row: 1, start_col: 0, end_row: 1, end_col: 2 }));
    }
    if let Some(p) = winner_of(board.get(2, 0), board.get(2, 1), board.get(2, 2)) {
        return Some((p, WinningLine { start_row: 2, start_col: 0, end_row: 2, end_col: 2 }));
    }
    if let Some(p) = winner_of(board.get(0, 0), board.get(1, 0), board.get(2, 0)) {
        return Some((p, WinningLine { start_row: 0, start_col: 0, end_row: 2, end_col: 0 }));
    }
    if let Some(p) = winner_of(board.get(0, 1), board.get(1, 1), board.get(2, 1)) {
        return Some((p, WinningLine { start_row: 0, start_col: 1, end_row: 2, end_col: 1 }));
    }
    if let Some(p) = winner_of(board.get(0, 2), board.get(1, 2), board.get(2, 2)) {
        return Some((p, WinningLine { start_row: 0, start_col: 2, end_row: 2, end_col: 2 }));
    }
    if let Some(p) = winner_of(board.get(0, 0), board.get(1, 1), board.get(2, 2)) {
        return Some((p, WinningLine { start_row: 0, start_col: 0, end_row: 2, end_col: 2 }));
    }
    if let Some(p) = winner_of(board.get(0, 2), board.get(1, 1), board.get(2, 0)) {
        return Some((p, WinningLine { start_row: 0, start_col: 2, end_row: 2, end_col: 0 }));
    }
    None
}

/// Whether every cell holds a mark.
pub fn board_is_full(board: &Board) -> (r: bool)
    requires
        board.wf(),
    ensures
        r == board_full(board@),
{
    let mut k: usize = 0;
    let mut full = true;
    while k < 9
        invariant
            k <= 9,
            board.wf(),
            full <==> (forall|j: int| 0 <= j < k ==> board@[j] is Some),
        decreases 9 - k,
    {
        if board.get(k / 3, k % 3).is_none() {
            full = false;
        }
        k = k + 1;
    }
    full
}

/// The coordinates of the first completed line in scan order, if any: the
/// shape the presentation layer draws a strike-through from.
pub fn check_winner(board: &Board) -> (r: Option<WinningLine>)
    requires
        board.wf(),
    ensures
        r == spec_winner_line(board@),
{
    match scan_winner(board) {
        Some((_p, line)) => Some(line),
        None => None,
    }
}

/// The outcome of a board: first completed line in scan order wins; a full
/// board without one is a draw; otherwise the game is in progress.
pub fn evaluate(board: &Board) -> (r: GameOutcome)
    requires
        board.wf(),
    ensures
        r == spec_evaluate(board@),
{
    match scan_winner(board) {
        Some((p, line)) => GameOutcome::Win(p, line),
        None => if board_is_full(board) {
            GameOutcome::Draw
        } else {
            GameOutcome::InProgress
        },
    }
}

} // verus!
