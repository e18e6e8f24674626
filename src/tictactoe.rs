//! The simple game: one 3×3 board, one key press per move.

use vstd::prelude::*;
use crate::input::input_cell;

pub use crate::input::KeyboardInput;
pub use crate::player::Player;
use crate::player::{cell_code, cell_to_u8, player_code, player_of_code};

verus! {

/// The board: `board[i]` is cell `i + 1`, counted row by row from the top left.
#[derive(Clone, Copy, Debug)]
pub struct BoardState {
    pub board: [Option<Player>; 9],
    pub current_player: Player,
}

/// A snapshot of the game, as handed to the renderer.
#[derive(Clone, Copy, Debug)]
pub enum GameStage {
    InProgress(BoardState),
    /// As `InProgress`, but the oracle refused the last move, a cell 1 to 9, which is kept.
    IllegalMove(BoardState, u8),
    Won(Player, BoardState),
    Draw(BoardState),
}

/// What the rules oracle is asked: the board, the player to move and the
/// proposed cell (1 to 9).
#[derive(Clone, Copy, Debug)]
pub struct TicTacToeInput {
    pub current_state: [u8; 9],
    pub player_turn: u8,
    pub proposed_move: u8,
}

/// What the rules oracle answers: whether the move was legal, the board
/// after it, the player to move next, and the winner (0 for none).
#[derive(Clone, Copy, Debug)]
pub struct TicTacToeOutput {
    pub was_legal: u8,
    pub new_state: [u8; 9],
    pub next_player_turn: u8,
    pub winner: u8,
}

impl TicTacToeOutput {
    /// The oracle names one of the two players as the next to move, and no
    /// one else as the winner.
    pub open spec fn well_formed(&self) -> bool {
        &&& player_of_code(self.next_player_turn) is Some
        &&& self.winner <= 2
    }

    /// Tells whether [`TicTacToeOutput::well_formed`] holds.
    pub fn is_well_formed(&self) -> (r: bool)
        ensures
            r == self.well_formed(),
    {
        (self.next_player_turn == 1 || self.next_player_turn == 2) && self.winner <= 2
    }
}

/// The board holds no mark and the first player is to move.
pub open spec fn is_fresh(b: BoardState) -> bool {
    &&& forall|i: int| 0 <= i < 9 ==> #[trigger] b.board@[i] is None
    &&& b.current_player == Player::PlayerOne
}

/// All nine cells hold a mark.
pub open spec fn is_full(b: BoardState) -> bool {
    forall|i: int| 0 <= i < 9 ==> #[trigger] b.board@[i] is Some
}

/// `b` is the board that the oracle's answer `out` describes.
pub open spec fn decodes_output(b: BoardState, out: TicTacToeOutput) -> bool {
    &&& forall|i: int| 0 <= i < 9 ==> #[trigger] b.board@[i] == player_of_code(out.new_state@[i])
    &&& player_of_code(out.next_player_turn) == Some(b.current_player)
}

/// `r` is the stage that follows the attempt of cell `mv` when the oracle answers `out`.
pub open spec fn stage_after(out: TicTacToeOutput, mv: u8, r: GameStage) -> bool {
    match r {
        GameStage::Won(p, b) => {
            &&& out.was_legal != 0
            &&& out.winner == player_code(p)
            &&& decodes_output(b, out)
        },
        GameStage::Draw(b) => {
            &&& out.was_legal != 0
            &&& out.winner == 0
            &&& is_full(b)
            &&& decodes_output(b, out)
        },
        GameStage::InProgress(b) => {
            &&& out.was_legal != 0
            &&& out.winner == 0
            &&& !is_full(b)
            &&& decodes_output(b, out)
        },
        GameStage::IllegalMove(b, m) => {
            &&& out.was_legal == 0
            &&& m == mv
            &&& decodes_output(b, out)
        },
    }
}

/// A refused move names a cell 1 to 9, as the renderer needs.
pub open spec fn stage_well_formed(s: GameStage) -> bool {
    s matches GameStage::IllegalMove(_, m) ==> 1 <= m <= 9
}

impl BoardState {
    /// An empty board with the first player to move.
    pub fn new() -> (b: BoardState)
        ensures
            is_fresh(b),
    {
        BoardState { board: [None; 9], current_player: Player::PlayerOne }
    }

    /// The board in the oracle's encoding: 0 for an empty cell, else the player's code.
    pub fn board_as_u8_array(&self) -> (codes: [u8; 9])
        ensures
            forall|i: int| 0 <= i < 9 ==> #[trigger] codes@[i] == cell_code(self.board@[i]),
    {
        let mut result = [0u8; 9];
        for i in 0..9
            invariant
                forall|j: int| 0 <= j < i ==> #[trigger] result@[j] == cell_code(self.board@[j]),
        {
            result[i] = cell_to_u8(self.board[i]);
        }
        result
    }

    /// The question to put to the oracle for a move into cell `game_move`.
    pub fn oracle_input(&self, game_move: u8) -> (input: TicTacToeInput)
        ensures
            forall|i: int|
                0 <= i < 9 ==> #[trigger] input.current_state@[i] == cell_code(self.board@[i]),
            input.player_turn == player_code(self.current_player),
            input.proposed_move == game_move,
    {
        TicTacToeInput {
            current_state: self.board_as_u8_array(),
            player_turn: self.current_player.to_u8(),
            proposed_move: game_move,
        }
    }

    /// The stage that follows the attempt of cell `game_move` from this
    /// board, given the oracle's answer `out` to [`BoardState::oracle_input`].
    /// A legal move wins if the oracle names a winner, draws if it leaves
    /// every cell taken, and goes on otherwise; an illegal one keeps the
    /// attempt. Either way the board and the next player are the oracle's.
    pub fn make_move(self, game_move: u8, out: TicTacToeOutput) -> (r: GameStage)
        requires
            out.well_formed(),
        ensures
            stage_after(out, game_move, r),
            1 <= game_move <= 9 ==> stage_well_formed(r),
    {
        let mut new_board = [None; 9];
        for i in 0..9
            invariant
                forall|j: int|
                    0 <= j < i ==> #[trigger] new_board@[j] == player_of_code(out.new_state@[j]),
        {
            new_board[i] = Player::from_u8(out.new_state[i]);
        }
        let next_player = match Player::from_u8(out.next_player_turn) {
            Some(p) => p,
            None => Player::PlayerOne,
        };
        let new_state = BoardState { board: new_board, current_player: next_player };

        if out.was_legal != 0 {
            if out.winner != 0 {
                let winner = if out.winner == 1 {
                    Player::PlayerOne
                } else {
                    Player::PlayerTwo
                };
                GameStage::Won(winner, new_state)
            } else if new_state.is_draw() {
                GameStage::Draw(new_state)
            } else {
                GameStage::InProgress(new_state)
            }
        } else {
            GameStage::IllegalMove(new_state, game_move)
        }
    }

    /// The game is drawn once all nine cells are taken.
    pub fn is_draw(&self) -> (r: bool)
        ensures
            r == is_full(*self),
    {
        for i in 0..9
            invariant
                forall|j: int| 0 <= j < i ==> #[trigger] self.board@[j] is Some,
        {
            if self.board[i].is_none() {
                return false;
            }
        }
        true
    }
}

/// What the game task does with one key press.
#[derive(Clone, Copy, Debug)]
pub enum GameAction {
    /// The key press changes nothing and nothing is published.
    Ignore,
    /// The game moves to this stage, which is published.
    Publish(GameStage),
    /// The move into this cell is put to the rules oracle for this board;
    /// the stage that follows is what [`BoardState::make_move`] makes of the answer.
    Play(BoardState, u8),
}

/// The stage a new game starts in.
pub open spec fn is_initial(s: GameStage) -> bool {
    s matches GameStage::InProgress(b) && is_fresh(b)
}

/// The board of a game that is still being played.
pub open spec fn open_board(s: GameStage) -> Option<BoardState> {
    match s {
        GameStage::InProgress(b) => Some(b),
        GameStage::IllegalMove(b, _) => Some(b),
        _ => None,
    }
}

/// The action that `input` calls for in stage `s`: a finished game waits for
/// Enter to start anew; a game being played takes numpad keys only, each one
/// a move into the cell at its place.
pub open spec fn action_for(s: GameStage, input: KeyboardInput, a: GameAction) -> bool {
    match open_board(s) {
        None => if input == KeyboardInput::Enter {
            a matches GameAction::Publish(n) && is_initial(n)
        } else {
            a is Ignore
        },
        Some(b) => match input_cell(input) {
            None => a is Ignore,
            Some(c) => a == GameAction::Play(b, c),
        },
    }
}

pub open spec fn stage_board(s: GameStage) -> BoardState {
    match s {
        GameStage::InProgress(b) => b,
        GameStage::IllegalMove(b, _) => b,
        GameStage::Won(_, b) => b,
        GameStage::Draw(b) => b,
    }
}

impl GameStage {
    /// The stage of a new game.
    pub fn initial() -> (s: GameStage)
        ensures
            is_initial(s),
    {
        GameStage::InProgress(BoardState::new())
    }

    /// Decides what a key press does in this stage.
    pub fn next_action(&self, input: KeyboardInput) -> (a: GameAction)
        ensures
            action_for(*self, input, a),
            a matches GameAction::Play(_, c) ==> 1 <= c <= 9,
    {
        let board = match self {
            GameStage::Won(_, _) | GameStage::Draw(_) => {
                if input.is_enter() {
                    return GameAction::Publish(GameStage::initial());
                }
                return GameAction::Ignore;
            },
            GameStage::InProgress(b) => *b,
            GameStage::IllegalMove(b, _) => *b,
        };
        match input.selected_cell() {
            Some(c) => GameAction::Play(board, c),
            None => GameAction::Ignore,
        }
    }

    /// Tells whether the stage can be drawn: see [`stage_well_formed`].
    pub fn is_well_formed(&self) -> (r: bool)
        ensures
            r == stage_well_formed(*self),
    {
        match self {
            GameStage::IllegalMove(_, m) => 1 <= *m && *m <= 9,
            _ => true,
        }
    }

    /// The board shown in this stage.
    pub fn board_state(&self) -> (b: BoardState)
        ensures
            b == stage_board(*self),
    {
        match self {
            GameStage::InProgress(b) => *b,
            GameStage::IllegalMove(b, _) => *b,
            GameStage::Won(_, b) => *b,
            GameStage::Draw(b) => *b,
        }
    }
}

/// A legal move after which the oracle reports three in a row for player
/// `p` ends the game won by `p`, on the board the oracle returned.
pub proof fn lemma_reported_line_wins(out: TicTacToeOutput, mv: u8, p: Player, r: GameStage)
    requires
        stage_after(out, mv, r),
        out.was_legal != 0,
        out.winner == player_code(p),
    ensures
        r matches GameStage::Won(w, b) && w == p && decodes_output(b, out),
{
}

/// A legal move that leaves all nine cells taken, with no winner reported,
/// ends the game drawn.
pub proof fn lemma_full_board_draws(out: TicTacToeOutput, mv: u8, r: GameStage)
    requires
        stage_after(out, mv, r),
        out.was_legal != 0,
        out.winner == 0,
        forall|i: int| 0 <= i < 9 ==> #[trigger] player_of_code(out.new_state@[i]) is Some,
    ensures
        r matches GameStage::Draw(b) && decodes_output(b, out),
{
    if r is InProgress {
        let b = stage_board(r);
        assert forall|i: int| 0 <= i < 9 implies #[trigger] b.board@[i] is Some by {
            assert(player_of_code(out.new_state@[i]) is Some);
        }
    }
}

} // verus!
