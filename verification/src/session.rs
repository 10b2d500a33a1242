//! The tick-driven session around one configured match: menu or playing,
//! who controls each side, the thinking delay before a computer move, and a
//! score that counts each finished game exactly once.

use vstd::prelude::*;

use crate::ai::{find_computer_move, hard_choice_ok, PlayerType};
use crate::board::{GameOutcome, Player};
use crate::game::{game_step, GameState};

verus! {

/// Which screen the session is on.
#[derive(Clone, Copy, PartialEq, Eq, Structural, Debug)]
pub enum AppState {
    Menu,
    Playing,
}

/// Who controls each side, chosen once per match from the menu.
#[derive(Clone, Copy, PartialEq, Eq, Structural, Debug)]
pub struct PlayerConfig {
    pub x_type: PlayerType,
    pub o_type: PlayerType,
}

impl Default for PlayerConfig {
    /// Both sides start as humans.
    fn default() -> (r: Self)
        ensures
            r == (PlayerConfig { x_type: PlayerType::Human, o_type: PlayerType::Human }),
    {
        PlayerConfig { x_type: PlayerType::Human, o_type: PlayerType::Human }
    }
}

/// Wins per side and draws, accumulated across the games of one session.
#[derive(Clone, Copy, PartialEq, Eq, Structural, Debug)]
pub struct Score {
    pub x_wins: u32,
    pub o_wins: u32,
    pub draws: u32,
}

impl Default for Score {
    /// A zeroed score.
    fn default() -> (r: Self)
        ensures
            r == (Score { x_wins: 0, o_wins: 0, draws: 0 }),
    {
        Score { x_wins: 0, o_wins: 0, draws: 0 }
    }
}

/// Countdown until the computer side moves, in milliseconds.
#[derive(Clone, Copy, PartialEq, Eq, Structural, Debug)]
pub struct ComputerMoveTimer {
    pub total_ms: u64,
    pub left_ms: u64,
}

impl Default for ComputerMoveTimer {
    /// Half a second of thinking delay before the first computer move.
    fn default() -> (r: Self)
        ensures
            r == (ComputerMoveTimer { total_ms: 500, left_ms: 500 }),
    {
        ComputerMoveTimer { total_ms: 500, left_ms: 500 }
    }
}

/// The score and counted flag after one poll of the outcome: the first poll
/// of a finished game adds one to the matching counter and marks the game
/// counted; every other poll changes nothing.
pub open spec fn spec_poll(score: Score, counted: bool, outcome: GameOutcome) -> (Score, bool) {
    if counted || outcome is InProgress {
        (score, counted)
    } else {
        match outcome {
            GameOutcome::Win(p, line) => if p is X {
                (
                    Score {
                        x_wins: (score.x_wins + 1) as u32,
                        o_wins: score.o_wins,
                        draws: score.draws,
                    },
                    true,
                )
            } else {
                (
                    Score {
                        x_wins: score.x_wins,
                        o_wins: (score.o_wins + 1) as u32,
                        draws: score.draws,
                    },
                    true,
                )
            },
            GameOutcome::Draw => (
                Score {
                    x_wins: score.x_wins,
                    o_wins: score.o_wins,
                    draws: (score.draws + 1) as u32,
                },
                true,
            ),
            GameOutcome::InProgress => (score, counted),
        }
    }
}

/// Score accounting: once a finished game has been counted, polling the
/// same outcome again changes neither the score nor the flag, however many
/// ticks poll it.
pub proof fn lemma_score_counted_once(score: Score, counted: bool, outcome: GameOutcome)
    ensures
        ({
            let (s1, c1) = spec_poll(score, counted, outcome);
            spec_poll(s1, c1, outcome) == (s1, c1)
        }),
{
}

/// Score accounting: the first poll of a finished, not yet counted game
/// adds exactly one across the three counters.
pub proof fn lemma_score_single_increment(score: Score, outcome: GameOutcome)
    requires
        !(outcome is InProgress),
        score.x_wins < u32::MAX,
        score.o_wins < u32::MAX,
        score.draws < u32::MAX,
    ensures
        ({
            let (s1, c1) = spec_poll(score, false, outcome);
            c1 && s1.x_wins + s1.o_wins + s1.draws == score.x_wins + score.o_wins + score.draws + 1
        }),
{
}

/// One configured match: the screen, the game in flight, who controls each
/// side, the accumulated score, the AI thinking delay, and whether the
/// current game's outcome has been counted.
pub struct SessionState {
    pub app_state: AppState,
    pub game: GameState,
    pub config: PlayerConfig,
    pub score: Score,
    pub timer: ComputerMoveTimer,
    pub counted: bool,
}

impl SessionState {
    /// The game in flight is consistent and the countdown never exceeds its
    /// rolled length.
    pub open spec fn wf(self) -> bool {
        &&& self.game.wf()
        &&& self.timer.left_ms <= self.timer.total_ms
    }

    /// The type configured for the side whose turn it is.
    pub open spec fn spec_current_type(self) -> PlayerType {
        if self.game.turn is X {
            self.config.x_type
        } else {
            self.config.o_type
        }
    }

    /// The type configured for the side whose turn it is.
    pub fn current_player_type(&self) -> (r: PlayerType)
        ensures
            r == self.spec_current_type(),
    {
        match self.game.turn {
            Player::X => self.config.x_type,
            Player::O => self.config.o_type,
        }
    }

    /// A fresh process: at the menu, fresh game, both sides human, zeroed
    /// score, default thinking delay, nothing counted.
    pub fn new() -> (s: SessionState)
        ensures
            s.wf(),
            s.app_state is Menu,
            s.game.is_initial(),
            s.config == (PlayerConfig { x_type: PlayerType::Human, o_type: PlayerType::Human }),
            s.score == (Score { x_wins: 0, o_wins: 0, draws: 0 }),
            s.timer == (ComputerMoveTimer { total_ms: 500, left_ms: 500 }),
            !s.counted,
    {
        SessionState {
            app_state: AppState::Menu,
            game: GameState::new(),
            config: PlayerConfig::default(),
            score: Score::default(),
            timer: ComputerMoveTimer::default(),
            counted: false,
        }
    }

    /// Pick who controls each side and enter play with a fresh game. The
    /// score carries over from the menu (it was zeroed on the way there).
    pub fn select_players(&mut self, x_type: PlayerType, o_type: PlayerType)
        requires
            old(self).wf(),
        ensures
            final(self).wf(),
            final(self).app_state is Playing,
            final(self).config == (PlayerConfig { x_type, o_type }),
            final(self).game.is_initial(),
            !final(self).counted,
            final(self).score == old(self).score,
            final(self).timer == old(self).timer,
    {
        self.config = PlayerConfig { x_type, o_type };
        self.game.reset();
        self.counted = false;
        self.app_state = AppState::Playing;
    }

    /// Start a new game, keeping the configuration and the score.
    pub fn reset_game(&mut self)
        requires
            old(self).wf(),
        ensures
            final(self).wf(),
            final(self).game.is_initial(),
            !final(self).counted,
            final(self).app_state == old(self).app_state,
            final(self).config == old(self).config,
            final(self).score == old(self).score,
            final(self).timer == old(self).timer,
    {
        self.game.reset();
        self.counted = false;
    }

    /// Leave play for the menu: the board clears and the score is zeroed;
    /// the chosen configuration is kept until the menu picks a new one.
    pub fn return_to_menu(&mut self)
        requires
            old(self).wf(),
        ensures
            final(self).wf(),
            final(self).app_state is Menu,
            final(self).game.is_initial(),
            final(self).score == (Score { x_wins: 0, o_wins: 0, draws: 0 }),
            !final(self).counted,
            final(self).config == old(self).config,
            final(self).timer == old(self).timer,
    {
        self.game.reset();
        self.score = Score::default();
        self.counted = false;
        self.app_state = AppState::Menu;
    }

    /// Whether a move event at (row, col) is accepted: the session is
    /// playing, no overlay captures the pointer, the side to move is human,
    /// the game is in progress, and the cell is a real, empty one.
    pub open spec fn spec_move_accepted(
        self,
        row: int,
        col: int,
        input_available: bool,
    ) -> bool {
        &&& self.app_state is Playing
        &&& input_available
        &&& self.spec_current_type() is Human
        &&& self.game.outcome is InProgress
        &&& 0 <= row < 3
        &&& 0 <= col < 3
        &&& self.game.board@[3 * row + col] is None
    }

    /// A pointer event resolved to cell (row, col). An accepted move is
    /// applied for the side to move; anything else is silently dropped and
    /// the whole session is left exactly as it was. `input_available` is the
    /// UI's word that no overlay captured the pointer.
    pub fn attempt_move(&mut self, row: usize, col: usize, input_available: bool)
        requires
            old(self).wf(),
        ensures
            final(self).wf(),
            final(self).app_state == old(self).app_state,
            final(self).config == old(self).config,
            final(self).score == old(self).score,
            final(self).timer == old(self).timer,
            final(self).counted == old(self).counted,
            old(self).spec_move_accepted(row as int, col as int, input_available) ==> game_step(
                old(self).game,
                final(self).game,
                row as int,
                col as int,
            ),
            !old(self).spec_move_accepted(row as int, col as int, input_available) ==> final(self).game
                == old(self).game,
    {
        if !matches!(self.app_state, AppState::Playing) {
            return ;
        }
        if !input_available {
            return ;
        }
        if !matches!(self.current_player_type(), PlayerType::Human) {
            return ;
        }
        if !matches!(self.game.outcome, GameOutcome::InProgress) {
            return ;
        }
        if row >= 3 || col >= 3 {
            return ;
        }
        if self.game.board.get(row, col).is_some() {
            return ;
        }
        self.game.make_move(row, col);
    }

    /// One tick of the computer driver, fed the milliseconds since the last
    /// tick. Nothing happens once the game is over. A human side to move
    /// resets the countdown. A computer side waits the countdown out, then
    /// moves by its tier's policy and re-rolls a fresh 200-799 ms delay.
    pub fn computer_player(&mut self, elapsed_ms: u64)
        requires
            old(self).wf(),
        ensures
            final(self).wf(),
            final(self).app_state == old(self).app_state,
            final(self).config == old(self).config,
            final(self).score == old(self).score,
            final(self).counted == old(self).counted,
            !(old(self).game.outcome is InProgress) ==> (final(self).game == old(self).game
                && final(self).timer == old(self).timer),
            old(self).game.outcome is InProgress && old(self).spec_current_type() is Human ==> (
            final(self).game == old(self).game && final(self).timer == (ComputerMoveTimer {
                total_ms: old(self).timer.total_ms,
                left_ms: old(self).timer.total_ms,
            })),
            old(self).game.outcome is InProgress && !(old(self).spec_current_type() is Human)
                && elapsed_ms < old(self).timer.left_ms ==> (final(self).game == old(self).game
                && final(self).timer == (ComputerMoveTimer {
                total_ms: old(self).timer.total_ms,
                left_ms: (old(self).timer.left_ms - elapsed_ms) as u64,
            })),
            old(self).game.outcome is InProgress && !(old(self).spec_current_type() is Human)
                && elapsed_ms >= old(self).timer.left_ms ==> ({
                &&& exists|m: (usize, usize)|
                    {
                        &&& m.0 < 3
                        &&& m.1 < 3
                        &&& old(self).game.board@[3 * m.0 + m.1] is None
                        &&& (old(self).spec_current_type() is ComputerHard ==> hard_choice_ok(
                            old(self).game.board@,
                            old(self).game.turn,
                            Some(m),
                        ))
                        &&& #[trigger] game_step(
                            old(self).game,
                            final(self).game,
                            m.0 as int,
                            m.1 as int,
                        )
                    }
                &&& 200 <= final(self).timer.total_ms < 800
                &&& final(self).timer.left_ms == final(self).timer.total_ms
            }),
    {
        if !matches!(self.game.outcome, GameOutcome::InProgress) {
            return ;
        }
        let current_type = self.current_player_type();
        if matches!(current_type, PlayerType::Human) {
            self.timer.left_ms = self.timer.total_ms;
            return ;
        }
        if elapsed_ms < self.timer.left_ms {
            self.timer.left_ms = self.timer.left_ms - elapsed_ms;
            return ;
        }
        let turn = self.game.turn;
        if let Some((row, col)) = find_computer_move(&self.game.board, current_type, turn) {
            self.game.make_move(row, col);
            let delay = roll_delay_ms();
            self.timer = ComputerMoveTimer { total_ms: delay, left_ms: delay };
        }
    }

    /// Poll the outcome and account the score: the first poll of a finished
    /// game adds one to the matching counter; later polls of the same game
    /// change nothing.
    pub fn update_score(&mut self)
        requires
            old(self).wf(),
            old(self).score.x_wins < u32::MAX,
            old(self).score.o_wins < u32::MAX,
            old(self).score.draws < u32::MAX,
        ensures
            final(self).wf(),
            (final(self).score, final(self).counted) == spec_poll(
                old(self).score,
                old(self).counted,
                old(self).game.outcome,
            ),
            final(self).app_state == old(self).app_state,
            final(self).game == old(self).game,
            final(self).config == old(self).config,
            final(self).timer == old(self).timer,
    {
        if self.counted {
            return ;
        }
        match self.game.outcome {
            GameOutcome::InProgress => {},
            GameOutcome::Win(p, _line) => {
                match p {
                    Player::X => self.score.x_wins = self.score.x_wins + 1,
                    Player::O => self.score.o_wins = self.score.o_wins + 1,
                }
                self.counted = true;
            },
            GameOutcome::Draw => {
                self.score.draws = self.score.draws + 1;
                self.counted = true;
            },
        }
    }
}

/// Relies on rand::random_range over `200..800`: the sampled thinking
/// delay, in milliseconds, lies in that range. Nothing is assumed about
/// which value comes back.
#[verifier::external_body]
fn roll_delay_ms() -> (r: u64)
    ensures
        200 <= r < 800,
{
    rand::random_range(200u64..800u64)
}

} // verus!
