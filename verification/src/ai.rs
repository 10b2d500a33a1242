//! The computer opponent: a uniformly random tier and a greedy tier that
//! tries, in strict order, to win now, to block the opponent, to take the
//! center, to take the first free corner, and finally to move at random.

use vstd::prelude::*;

use crate::board::{board_full, check_winner, spec_check_winner, Board, Player};

verus! {

/// Who controls a side.
#[derive(Clone, Copy, PartialEq, Eq, Structural, Debug)]
pub enum PlayerType {
    Human,
    ComputerEasy,
    ComputerHard,
}

impl PlayerType {
    /// Display name of the tier.
    pub fn label(&self) -> (r: &str)
        ensures
            self is Human ==> r@ == "Human"@,
            self is ComputerEasy ==> r@ == "Computer Easy"@,
            self is ComputerHard ==> r@ == "Computer Hard"@,
    {
        proof {
            reveal_strlit("Human");
            reveal_strlit("Computer Easy");
            reveal_strlit("Computer Hard");
        }
        match self {
            PlayerType::Human => "Human",
            PlayerType::ComputerEasy => "Computer Easy",
            PlayerType::ComputerHard => "Computer Hard",
        }
    }
}

/// Relies on rand::random_range over `0..n`: the sampled value lies in the
/// given non-empty range. An empty range would panic, so `n > 0` is
/// required. Nothing is assumed about which value comes back.
#[verifier::external_body]
fn pick_index(n: usize) -> (r: usize)
    requires
        n > 0,
    ensures
        r < n,
{
    rand::random_range(0..n)
}

/// A cell (given by its row-major index) where `p` could move now and
/// complete a line.
pub open spec fn winning_cell(b: Seq<Option<Player>>, p: Player, k: int) -> bool {
    b[k] is None && spec_check_winner(b.update(k, Some(p))) is Some
}

/// Some cell lets `p` complete a line right now.
pub open spec fn has_winning_cell(b: Seq<Option<Player>>, p: Player) -> bool {
    exists|k: int| 0 <= k < 9 && winning_cell(b, p, k)
}

/// `m` is the first cell in row-major scan order where `p` could move now
/// and complete a line.
pub open spec fn is_first_winning_cell(b: Seq<Option<Player>>, p: Player, m: (usize, usize)) -> bool {
    &&& m.0 < 3
    &&& m.1 < 3
    &&& winning_cell(b, p, 3 * m.0 + m.1)
    &&& forall|k: int| 0 <= k < 3 * m.0 + m.1 ==> !winning_cell(b, p, k)
}

/// Neither side can complete a line on its next move.
pub open spec fn no_tactical_move(b: Seq<Option<Player>>, p: Player) -> bool {
    !has_winning_cell(b, p) && !has_winning_cell(b, p.spec_other())
}

/// What the greedy tier may answer on board `b` with `p` to move: a win-now
/// cell first, else a block, else the center, else the first free corner in
/// the order (0,0), (0,2), (2,0), (2,2), else any empty cell; `None` exactly
/// on a full board.
pub open spec fn hard_choice_ok(b: Seq<Option<Player>>, p: Player, r: Option<(usize, usize)>) -> bool {
    &&& (r matches Some(m) ==> m.0 < 3 && m.1 < 3 && b[3 * m.0 + m.1] is None)
    &&& (r is None <==> board_full(b))
    &&& (has_winning_cell(b, p) ==> (r matches Some(m) && is_first_winning_cell(b, p, m)))
    &&& (!has_winning_cell(b, p) && has_winning_cell(b, p.spec_other()) ==> (r matches Some(m)
        && is_first_winning_cell(b, p.spec_other(), m)))
    &&& (no_tactical_move(b, p) && b[4] is None ==> r == Some((1usize, 1usize)))
    &&& (no_tactical_move(b, p) && b[4] is Some && b[0] is None ==> r == Some((0usize, 0usize)))
    &&& (no_tactical_move(b, p) && b[4] is Some && b[0] is Some && b[2] is None ==> r == Some(
        (0usize, 2usize),
    ))
    &&& (no_tactical_move(b, p) && b[4] is Some && b[0] is Some && b[2] is Some && b[6] is None
        ==> r == Some((2usize, 0usize)))
    &&& (no_tactical_move(b, p) && b[4] is Some && b[0] is Some && b[2] is Some && b[6] is Some
        && b[8] is None ==> r == Some((2usize, 2usize)))
}

/// The first cell, scanning row-major, where `player` could move now and
/// complete a line; `None` when no such cell exists.
pub fn find_winning_move(board: &Board, player: Player) -> (r: Option<(usize, usize)>)
    requires
        board.wf(),
    ensures
        r matches Some(m) ==> is_first_winning_cell(board@, player, m),
        r is None <==> !has_winning_cell(board@, player),
{
    let mut test = board.duplicate();
    let mut k: usize = 0;
    while k < 9
        invariant
            k <= 9,
            board.wf(),
            test.wf(),
            test@ == board@,
            forall|j: int| 0 <= j < k ==> !winning_cell(board@, player, j),
        decreases 9 - k,
    {
        let row = k / 3;
        let col = k % 3;
        if test.get(row, col).is_none() {
            test.set(row, col, Some(player));
            let won = check_winner(&test).is_some();
            test.set(row, col, None);
            proof {
                assert(test@ =~= board@);
            }
            if won {
                proof {
                    assert(winning_cell(board@, player, k as int));
                    assert(has_winning_cell(board@, player));
                }
                return Some((row, col));
            }
        }
        k = k + 1;
    }
    None
}

/// Collect the empty cells in row-major order and pick one of them at
/// random; `None` exactly on a full board. Every returned cell is empty and
/// in bounds; which one comes back is left open.
pub fn find_easy_move(board: &Board) -> (r: Option<(usize, usize)>)
    requires
        board.wf(),
    ensures
        r is None <==> board_full(board@),
        r matches Some(m) ==> m.0 < 3 && m.1 < 3 && board@[3 * m.0 + m.1] is None,
{
    let mut empty_cells: Vec<(usize, usize)> = Vec::new();
    let mut k: usize = 0;
    while k < 9
        invariant
            k <= 9,
            board.wf(),
            forall|j: int|
                0 <= j < empty_cells@.len() ==> (#[trigger] empty_cells@[j]).0 < 3
                    && empty_cells@[j].1 < 3 && board@[3 * empty_cells@[j].0 + empty_cells@[j].1]
                    is None,
            empty_cells@.len() == 0 <==> (forall|j: int| 0 <= j < k ==> board@[j] is Some),
        decreases 9 - k,
    {
        let row = k / 3;
        let col = k % 3;
        if board.get(row, col).is_none() {
            empty_cells.push((row, col));
        }
        k = k + 1;
    }
    if empty_cells.len() == 0 {
        return None;
    }
    assert(!board_full(board@)) by {
        assert(board@[3 * empty_cells@[0].0 + empty_cells@[0].1] is None);
    }
    let idx = pick_index(empty_cells.len());
    Some(empty_cells[idx])
}

/// The greedy tier: win now, else block, else center, else first free
/// corner, else a random empty cell.
pub fn find_hard_move(board: &Board, player: Player) -> (r: Option<(usize, usize)>)
    requires
        board.wf(),
    ensures
        hard_choice_ok(board@, player, r),
{
    if let Some(m) = find_winning_move(board, player) {
        return Some(m);
    }
    if let Some(m) = find_winning_move(board, player.other()) {
        return Some(m);
    }
    if board.get(1, 1).is_none() {
        return Some((1, 1));
    }
    if board.get(0, 0).is_none() {
        return Some((0, 0));
    }
    if board.get(0, 2).is_none() {
        return Some((0, 2));
    }
    if board.get(2, 0).is_none() {
        return Some((2, 0));
    }
    if board.get(2, 2).is_none() {
        return Some((2, 2));
    }
    find_easy_move(board)
}

/// The move a side of the given type proposes, if any: humans propose
/// nothing, the easy tier picks a random empty cell, the hard tier follows
/// the greedy policy. For a computer tier the answer is `None` exactly on a
/// full board.
pub fn find_computer_move(board: &Board, player_type: PlayerType, player: Player) -> (r: Option<
    (usize, usize),
>)
    requires
        board.wf(),
    ensures
        player_type is Human ==> r is None,
        player_type is ComputerEasy ==> ((r is None <==> board_full(board@)) && (r matches Some(m)
            ==> m.0 < 3 && m.1 < 3 && board@[3 * m.0 + m.1] is None)),
        player_type is ComputerHard ==> hard_choice_ok(board@, player, r),
{
    match player_type {
        PlayerType::Human => None,
        PlayerType::ComputerEasy => find_easy_move(board),
        PlayerType::ComputerHard => find_hard_move(board, player),
    }
}

} // verus!
