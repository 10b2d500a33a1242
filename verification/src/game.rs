//! One game in flight: the board, whose turn it is, how many moves were
//! made, and the derived outcome. The outcome is always recomputed from the
//! board after a move, never maintained by hand in a second place.

use vstd::prelude::*;

use crate::board::{
    empty_board, evaluate, num_marks, spec_evaluate, Board, GameOutcome, MoveError, Player,
};

verus! {

/// The board after `p` marks cell (r, c).
pub open spec fn spec_place(b: Seq<Option<Player>>, r: int, c: int, p: Player) -> Seq<
    Option<Player>,
> {
    b.update(3 * r + c, Some(p))
}

/// Whose turn follows after `t` marks (r, c) on board `b`: the other side
/// while the game stays in progress, and `t` itself once the move ends the
/// game, freezing whose mark made the final move.
pub open spec fn spec_turn_after(b: Seq<Option<Player>>, t: Player, r: int, c: int) -> Player {
    if spec_evaluate(spec_place(b, r, c, t)) is InProgress {
        t.spec_other()
    } else {
        t
    }
}

/// The rules-engine state of one game.
pub struct GameState {
    pub board: Board,
    pub turn: Player,
    pub moves: u32,
    pub outcome: GameOutcome,
}

/// `post` is `pre` after `pre`'s side to move marks (r, c).
pub open spec fn game_step(pre: GameState, post: GameState, r: int, c: int) -> bool {
    &&& post.board@ == spec_place(pre.board@, r, c, pre.turn)
    &&& post.moves == pre.moves + 1
    &&& post.outcome == spec_evaluate(post.board@)
    &&& post.turn == spec_turn_after(pre.board@, pre.turn, r, c)
}

impl GameState {
    /// The state is consistent: nine cells, the move counter equals the
    /// number of marks on the board, and the stored outcome is exactly what
    /// evaluating the board yields.
    pub open spec fn wf(self) -> bool {
        &&& self.board@.len() == 9
        &&& self.moves == num_marks(self.board@)
        &&& self.outcome == spec_evaluate(self.board@)
    }

    /// The initial state follows: empty board, X to move, no moves made.
    pub open spec fn is_initial(self) -> bool {
        &&& self.board@ == empty_board()
        &&& self.turn == Player::X
        &&& self.moves == 0
        &&& self.outcome == GameOutcome::InProgress
    }

    /// A fresh game: empty board, X to move.
    pub fn new() -> (s: GameState)
        ensures
            s.wf(),
            s.is_initial(),
    {
        let board = Board::empty();
        GameState { board, turn: Player::X, moves: 0, outcome: GameOutcome::InProgress }
    }

    /// Return to the initial state: all cells empty, X to move, no moves,
    /// game in progress.
    pub fn reset(&mut self)
        ensures
            final(self).wf(),
            final(self).is_initial(),
    {
        *self = GameState::new();
    }

    /// Apply `player`'s move at (row, col). Rejected moves change nothing;
    /// each error names its exact cause, and the checks run in this order:
    /// bounds, then occupancy, then whether the game is already over. A
    /// successful move places the mark, recomputes the outcome from the
    /// board, and hands the turn to the other side only while the game is
    /// still in progress.
    pub fn apply_move(&mut self, row: usize, col: usize, player: Player) -> (result: Result<
        GameOutcome,
        MoveError,
    >)
        requires
            old(self).wf(),
        ensures
            final(self).wf(),
            result is Err ==> *final(self) == *old(self),
            result == Err::<GameOutcome, MoveError>(MoveError::OutOfBounds) <==> (row >= 3 || col
                >= 3),
            result == Err::<GameOutcome, MoveError>(MoveError::CellOccupied) <==> (row < 3 && col
                < 3 && old(self).board@[3 * row + col] is Some),
            result == Err::<GameOutcome, MoveError>(MoveError::GameAlreadyOver) <==> (row < 3
                && col < 3 && old(self).board@[3 * row + col] is None && !(old(
                self,
            ).outcome is InProgress)),
            result is Ok <==> (row < 3 && col < 3 && old(self).board@[3 * row + col] is None && old(
                self,
            ).outcome is InProgress),
            result is Ok ==> ({
                &&& final(self).board@ == spec_place(
                    old(self).board@,
                    row as int,
                    col as int,
                    player,
                )
                &&& final(self).moves == old(self).moves + 1
                &&& final(self).outcome == spec_evaluate(final(self).board@)
                &&& final(self).turn == (if final(self).outcome is InProgress {
                    player.spec_other()
                } else {
                    old(self).turn
                })
                &&& result == Ok::<GameOutcome, MoveError>(final(self).outcome)
            }),
    {
        if row >= 3 || col >= 3 {
            return Err(MoveError::OutOfBounds);
        }
        if self.board.get(row, col).is_some() {
            return Err(MoveError::CellOccupied);
        }
        if !matches!(self.outcome, GameOutcome::InProgress) {
            return Err(MoveError::GameAlreadyOver);
        }
        proof {
            lemma_num_marks_place(old(self).board@, 3 * row + col, player);
        }
        self.board.set(row, col, Some(player));
        self.moves = self.moves + 1;
        let outcome = evaluate(&self.board);
        self.outcome = outcome;
        if matches!(outcome, GameOutcome::InProgress) {
            self.turn = player.other();
        }
        Ok(outcome)
    }

    /// Apply a move by the side whose turn it is, which the caller has
    /// already checked to be legal.
    pub fn make_move(&mut self, row: usize, col: usize)
        requires
            old(self).wf(),
            row < 3,
            col < 3,
            old(self).board@[3 * row + col] is None,
            old(self).outcome is InProgress,
        ensures
            final(self).wf(),
            game_step(*old(self), *final(self), row as int, col as int),
    {
        let player = self.turn;
        let _ = self.apply_move(row, col, player);
    }
}

/// Marking an empty cell adds exactly one to the number of marks.
proof fn lemma_num_marks_place(b: Seq<Option<Player>>, k: int, p: Player)
    requires
        b.len() == 9,
        0 <= k < 9,
        b[k] is None,
    ensures
        num_marks(b.update(k, Some(p))) == num_marks(b) + 1,
{
}

/// A run of moves, each a (row, column) pair, is legal from board `b` with
/// `t` to move when the game is in progress before every move, every move
/// lands in bounds on an empty cell, and each move is made by the side to
/// move at that point.
pub open spec fn legal_run(b: Seq<Option<Player>>, t: Player, ms: Seq<(int, int)>) -> bool
    decreases ms.len(),
{
    ms.len() == 0 || {
        let m = ms[0];
        &&& spec_evaluate(b) is InProgress
        &&& 0 <= m.0 < 3
        &&& 0 <= m.1 < 3
        &&& b[3 * m.0 + m.1] is None
        &&& legal_run(spec_place(b, m.0, m.1, t), spec_turn_after(b, t, m.0, m.1), ms.drop_first())
    }
}

/// The board left behind by a run of moves from board `b` with `t` to move.
pub open spec fn board_after_run(b: Seq<Option<Player>>, t: Player, ms: Seq<(int, int)>) -> Seq<
    Option<Player>,
>
    decreases ms.len(),
{
    if ms.len() == 0 {
        b
    } else {
        let m = ms[0];
        board_after_run(spec_place(b, m.0, m.1, t), spec_turn_after(b, t, m.0, m.1), ms.drop_first())
    }
}

/// The side to move after a run of moves from board `b` with `t` to move.
pub open spec fn turn_after_run(b: Seq<Option<Player>>, t: Player, ms: Seq<(int, int)>) -> Player
    decreases ms.len(),
{
    if ms.len() == 0 {
        t
    } else {
        let m = ms[0];
        turn_after_run(spec_place(b, m.0, m.1, t), spec_turn_after(b, t, m.0, m.1), ms.drop_first())
    }
}

/// Turn alternation: along any run of legal moves during which the outcome
/// stays in progress, every move hands the turn to the other side, so the
/// side to move after the run is fixed by the parity of its length.
pub proof fn lemma_turn_alternation(b: Seq<Option<Player>>, t: Player, ms: Seq<(int, int)>)
    requires
        legal_run(b, t, ms),
        spec_evaluate(board_after_run(b, t, ms)) is InProgress,
    ensures
        turn_after_run(b, t, ms) == (if ms.len() % 2 == 0 {
            t
        } else {
            t.spec_other()
        }),
    decreases ms.len(),
{
    if ms.len() != 0 {
        let m = ms[0];
        let b2 = spec_place(b, m.0, m.1, t);
        let t2 = spec_turn_after(b, t, m.0, m.1);
        if ms.len() == 1 {
            assert(board_after_run(b, t, ms) == board_after_run(b2, t2, ms.drop_first()));
            assert(ms.drop_first().len() == 0);
            assert(board_after_run(b2, t2, ms.drop_first()) == b2);
        } else {
            assert(legal_run(b2, t2, ms.drop_first()));
        }
        assert(spec_evaluate(b2) is InProgress);
        lemma_turn_alternation(b2, t2, ms.drop_first());
    }
}

/// Turn alternation from a fresh game: after any legal run that leaves the
/// game in progress, X is to move exactly when the number of moves made is
/// even, so the turn goes X, O, X, O, ...
pub proof fn lemma_turn_alternation_from_start(ms: Seq<(int, int)>)
    requires
        legal_run(empty_board(), Player::X, ms),
        spec_evaluate(board_after_run(empty_board(), Player::X, ms)) is InProgress,
    ensures
        turn_after_run(empty_board(), Player::X, ms) == (if ms.len() % 2 == 0 {
            Player::X
        } else {
            Player::O
        }),
{
    lemma_turn_alternation(empty_board(), Player::X, ms);
}

} // verus!
