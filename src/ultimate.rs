//! The nested ("ultimate") game: nine 3×3 subgrids on a 9×9 board, played by
//! first selecting a subgrid and then a cell in it.

use vstd::prelude::*;
use crate::input::input_cell;

pub use crate::input::KeyboardInput;
pub use crate::player::Player;
use crate::player::{cell_code, cell_to_u8, player_code, player_of_code};

verus! {

/// What became of a finished subgrid.
#[derive(Clone, Copy, PartialEq, Eq, Debug, Structural)]
pub enum PlayerOrDraw {
    Player(Player),
    Draw,
}

/// Code of a subgrid's outcome at the oracle boundary: 0 while open, then
/// 1 or 2 for the player who won it, 3 for a draw.
pub open spec fn outcome_code(o: Option<PlayerOrDraw>) -> u8 {
    match o {
        None => 0u8,
        Some(PlayerOrDraw::Player(p)) => player_code(p),
        Some(PlayerOrDraw::Draw) => 3u8,
    }
}

/// The outcome that an oracle code stands for; unknown codes stand for none.
pub open spec fn outcome_of_code(code: u8) -> Option<PlayerOrDraw> {
    if code == 1 {
        Some(PlayerOrDraw::Player(Player::PlayerOne))
    } else if code == 2 {
        Some(PlayerOrDraw::Player(Player::PlayerTwo))
    } else if code == 3 {
        Some(PlayerOrDraw::Draw)
    } else {
        None
    }
}

fn outcome_to_u8(o: Option<PlayerOrDraw>) -> (r: u8)
    ensures
        r == outcome_code(o),
{
    match o {
        None => 0,
        Some(PlayerOrDraw::Player(p)) => p.to_u8(),
        Some(PlayerOrDraw::Draw) => 3,
    }
}

fn outcome_from_u8(code: u8) -> (r: Option<PlayerOrDraw>)
    ensures
        r == outcome_of_code(code),
{
    match code {
        1 => Some(PlayerOrDraw::Player(Player::PlayerOne)),
        2 => Some(PlayerOrDraw::Player(Player::PlayerTwo)),
        3 => Some(PlayerOrDraw::Draw),
        _ => None,
    }
}

/// The whole board: `board[g][c]` is cell `c` of subgrid `g`, both counted
/// from 0 row by row from the top left.
#[derive(Clone, Copy, Debug)]
pub struct BoardState {
    pub board: [[Option<Player>; 9]; 9],
    pub finished_grids: [Option<PlayerOrDraw>; 9],
    pub current_player: Player,
}

/// How the next numeric input is read.
#[derive(Clone, Copy, PartialEq, Eq, Debug, Structural)]
pub enum NextUserSelection {
    /// The input picks a subgrid, 1 to 9.
    SelectGrid,
    /// Subgrid `grid` (1 to 9) is picked; the input picks a cell in it.
    SelectCell(u8),
}

/// A move: a subgrid and a cell in it, both 1 to 9.
#[derive(Clone, Copy, PartialEq, Eq, Debug, Structural)]
pub struct Move {
    pub grid: u8,
    pub cell: u8,
}

/// A snapshot of the game, as handed to the renderer.
#[derive(Clone, Copy, Debug)]
pub enum GameStage {
    InProgress(BoardState, NextUserSelection),
    /// As `InProgress`, but the oracle refused the last move, which is kept.
    IllegalMove(BoardState, NextUserSelection, Move),
    Won(Player, BoardState),
    Draw(BoardState),
}

/// What the rules oracle is asked: the board in column-major order
/// (`current_grid_state[g + 9 * c]` is cell `c` of subgrid `g`), the outcome
/// of each subgrid, the player to move and the proposed move.
#[derive(Clone, Copy, Debug)]
pub struct UltimateInput {
    pub current_grid_state: [u8; 81],
    pub current_grid_winners: [u8; 9],
    pub player_turn: u8,
    pub proposed_move_grid: u8,
    pub proposed_move_cell: u8,
}

/// What the rules oracle answers, in the same encoding; `next_grid` is the
/// subgrid that must be played next, or 0 for a free choice.
#[derive(Clone, Copy, Debug)]
pub struct UltimateOutput {
    pub was_legal: u8,
    pub new_grid_state: [u8; 81],
    pub new_grid_winners: [u8; 9],
    pub next_player_turn: u8,
    pub winner: u8,
    pub next_grid: u8,
}

impl UltimateOutput {
    /// The oracle names no one but the two players as the winner, and no
    /// subgrid beyond the ninth.
    pub open spec fn well_formed(&self) -> bool {
        &&& self.winner <= 2
        &&& self.next_grid <= 9
    }

    /// Tells whether [`UltimateOutput::well_formed`] holds.
    pub fn is_well_formed(&self) -> (r: bool)
        ensures
            r == self.well_formed(),
    {
        self.winner <= 2 && self.next_grid <= 9
    }
}

/// The board holds no mark and no finished subgrid, and the first player is to move.
pub open spec fn is_fresh(b: BoardState) -> bool {
    &&& forall|g: int, c: int| 0 <= g < 9 && 0 <= c < 9 ==> #[trigger] b.board@[g]@[c] is None
    &&& forall|g: int| 0 <= g < 9 ==> #[trigger] b.finished_grids@[g] is None
    &&& b.current_player == Player::PlayerOne
}

/// All 81 cells hold a mark.
pub open spec fn is_full(b: BoardState) -> bool {
    forall|g: int, c: int| 0 <= g < 9 && 0 <= c < 9 ==> #[trigger] b.board@[g]@[c] is Some
}

/// `codes` is the board of `b` in the oracle's column-major encoding.
pub open spec fn encodes_board(codes: Seq<u8>, b: BoardState) -> bool {
    &&& codes.len() == 81
    &&& forall|g: int, c: int|
        0 <= g < 9 && 0 <= c < 9 ==> #[trigger] codes[g + 9 * c] == cell_code(b.board@[g]@[c])
}

/// `b` is the board that the oracle's answer `out` describes.
pub open spec fn decodes_output(b: BoardState, out: UltimateOutput) -> bool {
    &&& forall|g: int, c: int|
        0 <= g < 9 && 0 <= c < 9 ==> #[trigger] b.board@[g]@[c] == player_of_code(
            out.new_grid_state@[g + 9 * c],
        )
    &&& forall|g: int|
        0 <= g < 9 ==> #[trigger] b.finished_grids@[g] == outcome_of_code(out.new_grid_winners@[g])
    &&& b.current_player == match player_of_code(out.next_player_turn) {
        Some(p) => p,
        None => Player::PlayerOne,
    }
}

/// The selection that the oracle's `next_grid` asks for.
pub open spec fn selection_for(next_grid: u8) -> NextUserSelection {
    if next_grid == 0 {
        NextUserSelection::SelectGrid
    } else {
        NextUserSelection::SelectCell(next_grid)
    }
}

/// `r` is the stage that follows the attempt of `mv` when the oracle answers `out`.
pub open spec fn stage_after(out: UltimateOutput, mv: Move, r: GameStage) -> bool {
    match r {
        GameStage::Won(p, b) => {
            &&& out.was_legal != 0
            &&& out.winner == player_code(p)
            &&& decodes_output(b, out)
        },
        GameStage::Draw(b) => {
            &&& out.was_legal != 0
            &&& out.winner == 0
            &&& is_full(b)
            &&& decodes_output(b, out)
        },
        GameStage::InProgress(b, sel) => {
            &&& out.was_legal != 0
            &&& out.winner == 0
            &&& !is_full(b)
            &&& sel == selection_for(out.next_grid)
            &&& decodes_output(b, out)
        },
        GameStage::IllegalMove(b, sel, m) => {
            &&& out.was_legal == 0
            &&& m == mv
            &&& sel == selection_for(out.next_grid)
            &&& decodes_output(b, out)
        },
    }
}

pub open spec fn in_range(v: u8) -> bool {
    1 <= v <= 9
}

/// Everything the renderer reads is in range: a selected subgrid and a
/// refused move name subgrids and cells 1 to 9.
pub open spec fn stage_well_formed(s: GameStage) -> bool {
    match s {
        GameStage::InProgress(_, sel) => {
            sel matches NextUserSelection::SelectCell(g) ==> in_range(g)
        },
        GameStage::IllegalMove(_, sel, m) => {
            &&& (sel matches NextUserSelection::SelectCell(g) ==> in_range(g))
            &&& in_range(m.grid)
            &&& in_range(m.cell)
        },
        _ => true,
    }
}

impl BoardState {
    /// An empty board with the first player to move.
    pub fn new() -> (b: BoardState)
        ensures
            is_fresh(b),
    {
        BoardState {
            board: [[None; 9]; 9],
            current_player: Player::PlayerOne,
            finished_grids: [None; 9],
        }
    }

    /// The board in the oracle's column-major encoding.
    pub fn board_as_u8_array(&self) -> (codes: [u8; 81])
        ensures
            encodes_board(codes@, *self),
    {
        let mut result = [0u8; 81];
        for c in 0..9
            invariant
                forall|g: int, c2: int|
                    0 <= g < 9 && 0 <= c2 < c ==> #[trigger] result@[g + 9 * c2] == cell_code(
                        self.board@[g]@[c2],
                    ),
        {
            for g in 0..9
                invariant
                    0 <= c < 9,
                    forall|g2: int, c2: int|
                        0 <= g2 < 9 && 0 <= c2 < c ==> #[trigger] result@[g2 + 9 * c2] == cell_code(
                            self.board@[g2]@[c2],
                        ),
                    forall|g2: int|
                        0 <= g2 < g ==> #[trigger] result@[g2 + 9 * c] == cell_code(
                            self.board@[g2]@[c as int],
                        ),
            {
                result[g + c * 9] = cell_to_u8(self.board[g][c]);
            }
        }
        result
    }

    /// The question to put to the oracle for the move `(grid, cell)`.
    pub fn oracle_input(&self, grid: u8, cell: u8) -> (input: UltimateInput)
        ensures
            encodes_board(input.current_grid_state@, *self),
            forall|g: int|
                0 <= g < 9 ==> #[trigger] input.current_grid_winners@[g] == outcome_code(
                    self.finished_grids@[g],
                ),
            input.player_turn == player_code(self.current_player),
            input.proposed_move_grid == grid,
            input.proposed_move_cell == cell,
    {
        let mut winners = [0u8; 9];
        for g in 0..9
            invariant
                forall|g2: int|
                    0 <= g2 < g ==> #[trigger] winners@[g2] == outcome_code(
                        self.finished_grids@[g2],
                    ),
        {
            winners[g] = outcome_to_u8(self.finished_grids[g]);
        }
        UltimateInput {
            current_grid_state: self.board_as_u8_array(),
            current_grid_winners: winners,
            player_turn: self.current_player.to_u8(),
            proposed_move_grid: grid,
            proposed_move_cell: cell,
        }
    }

    /// The stage that follows the attempt of the move `(proposed_grid,
    /// proposed_cell)` from this board, given the oracle's answer `out` to
    /// [`BoardState::oracle_input`]. A legal move wins if the oracle names a
    /// winner, draws if it leaves every cell taken, and goes on otherwise; an
    /// illegal one keeps the attempt. Either way the board, the subgrid
    /// outcomes, the next player and the next selection are the oracle's.
    pub fn make_move(
        self,
        proposed_grid: u8,
        proposed_cell: u8,
        out: UltimateOutput,
    ) -> (r: GameStage)
        requires
            out.winner <= 2,
        ensures
            stage_after(out, Move { grid: proposed_grid, cell: proposed_cell }, r),
            out.well_formed() && in_range(proposed_grid) && in_range(proposed_cell)
                ==> stage_well_formed(r),
    {
        let mut new_board = [[None; 9]; 9];
        for c in 0..9
            invariant
                forall|g: int, c2: int|
                    0 <= g < 9 && 0 <= c2 < c ==> #[trigger] new_board@[g]@[c2] == player_of_code(
                        out.new_grid_state@[g + 9 * c2],
                    ),
        {
            for g in 0..9
                invariant
                    0 <= c < 9,
                    forall|g2: int, c2: int|
                        0 <= g2 < 9 && 0 <= c2 < c ==> #[trigger] new_board@[g2]@[c2]
                            == player_of_code(out.new_grid_state@[g2 + 9 * c2]),
                    forall|g2: int|
                        0 <= g2 < g ==> #[trigger] new_board@[g2]@[c as int] == player_of_code(
                            out.new_grid_state@[g2 + 9 * c],
                        ),
            {
                let mut row = new_board[g];
                row[c] = Player::from_u8(out.new_grid_state[g + c * 9]);
                new_board[g] = row;
            }
        }

        let mut new_finished = [None; 9];
        for g in 0..9
            invariant
                forall|g2: int|
                    0 <= g2 < g ==> #[trigger] new_finished@[g2] == outcome_of_code(
                        out.new_grid_winners@[g2],
                    ),
        {
            new_finished[g] = outcome_from_u8(out.new_grid_winners[g]);
        }

        let next_selection = if out.next_grid == 0 {
            NextUserSelection::SelectGrid
        } else {
            NextUserSelection::SelectCell(out.next_grid)
        };

        let next_player = match Player::from_u8(out.next_player_turn) {
            Some(p) => p,
            None => Player::PlayerOne,
        };
        let new_state = BoardState {
            board: new_board,
            current_player: next_player,
            finished_grids: new_finished,
        };

        if out.was_legal != 0 {
            if out.winner != 0 {
                let winner = if out.winner == 1 {
                    Player::PlayerOne
                } else {
                    Player::PlayerTwo
                };
                GameStage::Won(winner, new_state)
            } else if new_state.is_draw() {
                GameStage::Draw(new_state)
            } else {
                GameStage::InProgress(new_state, next_selection)
            }
        } else {
            GameStage::IllegalMove(
                new_state,
                next_selection,
                Move { grid: proposed_grid, cell: proposed_cell },
            )
        }
    }

    /// The game is drawn once all 81 cells are taken.
    pub fn is_draw(&self) -> (r: bool)
        ensures
            r == is_full(*self),
    {
        for g in 0..9
            invariant
                forall|g2: int, c: int|
                    0 <= g2 < g && 0 <= c < 9 ==> #[trigger] self.board@[g2]@[c] is Some,
        {
            for c in 0..9
                invariant
                    0 <= g < 9,
                    forall|g2: int, c2: int|
                        0 <= g2 < g && 0 <= c2 < 9 ==> #[trigger] self.board@[g2]@[c2] is Some,
                    forall|c2: int| 0 <= c2 < c ==> #[trigger] self.board@[g as int]@[c2] is Some,
            {
                if self.board[g][c].is_none() {
                    return false;
                }
            }
        }
        true
    }
}

/// What the game task does with one key press.
#[derive(Clone, Copy, Debug)]
pub enum GameAction {
    /// The key press changes nothing and nothing is published.
    Ignore,
    /// The game moves to this stage, which is published.
    Publish(GameStage),
    /// The move is put to the rules oracle for this board; the stage that
    /// follows is what [`BoardState::make_move`] makes of the answer.
    Play(BoardState, Move),
}

/// The stage a new game starts in: an empty board, with the top-left subgrid selected.
pub open spec fn is_initial(s: GameStage) -> bool {
    s matches GameStage::InProgress(b, sel) && is_fresh(b)
        && sel == NextUserSelection::SelectCell(1)
}

/// The board and selection of a game that is still being played.
pub open spec fn open_position(s: GameStage) -> Option<(BoardState, NextUserSelection)> {
    match s {
        GameStage::InProgress(b, sel) => Some((b, sel)),
        GameStage::IllegalMove(b, sel, _) => Some((b, sel)),
        _ => None,
    }
}

/// The action that `input` calls for in stage `s`: a finished game waits for
/// Enter to start anew; a game being played takes numpad keys only, which
/// select a subgrid or, once one is selected, the cell to play in it.
pub open spec fn action_for(s: GameStage, input: KeyboardInput, a: GameAction) -> bool {
    match open_position(s) {
        None => if input == KeyboardInput::Enter {
            a matches GameAction::Publish(n) && is_initial(n)
        } else {
            a is Ignore
        },
        Some((b, sel)) => match input_cell(input) {
            None => a is Ignore,
            Some(c) => match sel {
                NextUserSelection::SelectGrid => a == GameAction::Publish(
                    GameStage::InProgress(b, NextUserSelection::SelectCell(c)),
                ),
                NextUserSelection::SelectCell(g) => {
                    a == GameAction::Play(b, Move { grid: g, cell: c })
                },
            },
        },
    }
}

impl GameStage {
    /// The stage of a new game.
    pub fn initial() -> (s: GameStage)
        ensures
            is_initial(s),
            stage_well_formed(s),
    {
        GameStage::InProgress(BoardState::new(), NextUserSelection::SelectCell(1))
    }

    /// Decides what a key press does in this stage.
    pub fn next_action(&self, input: KeyboardInput) -> (a: GameAction)
        ensures
            action_for(*self, input, a),
            stage_well_formed(*self) ==> match a {
                GameAction::Publish(n) => stage_well_formed(n),
                GameAction::Play(_, m) => in_range(m.grid) && in_range(m.cell),
                GameAction::Ignore => true,
            },
    {
        let (board, selection) = match self {
            GameStage::Won(_, _) | GameStage::Draw(_) => {
                if input.is_enter() {
                    return GameAction::Publish(GameStage::initial());
                }
                return GameAction::Ignore;
            },
            GameStage::InProgress(b, sel) => (*b, *sel),
            GameStage::IllegalMove(b, sel, _) => (*b, *sel),
        };
        let cell = match input.selected_cell() {
            Some(c) => c,
            None => return GameAction::Ignore,
        };
        match selection {
            NextUserSelection::SelectGrid => GameAction::Publish(
                GameStage::InProgress(board, NextUserSelection::SelectCell(cell)),
            ),
            NextUserSelection::SelectCell(grid) => GameAction::Play(board, Move { grid, cell }),
        }
    }

    /// Tells whether the stage can be drawn: see [`stage_well_formed`].
    pub fn is_well_formed(&self) -> (r: bool)
        ensures
            r == stage_well_formed(*self),
    {
        let selection = match self {
            GameStage::InProgress(_, sel) => *sel,
            GameStage::IllegalMove(_, sel, m) => {
                if !(1 <= m.grid && m.grid <= 9 && 1 <= m.cell && m.cell <= 9) {
                    return false;
                }
                *sel
            },
            _ => return true,
        };
        match selection {
            NextUserSelection::SelectGrid => true,
            NextUserSelection::SelectCell(g) => 1 <= g && g <= 9,
        }
    }

    /// The board shown in this stage.
    pub fn board_state(&self) -> (b: BoardState)
        ensures
            b == stage_board(*self),
    {
        match self {
            GameStage::InProgress(b, _) => *b,
            GameStage::IllegalMove(b, _, _) => *b,
            GameStage::Won(_, b) => *b,
            GameStage::Draw(b) => *b,
        }
    }
}

pub open spec fn stage_board(s: GameStage) -> BoardState {
    match s {
        GameStage::InProgress(b, _) => b,
        GameStage::IllegalMove(b, _, _) => b,
        GameStage::Won(_, b) => b,
        GameStage::Draw(b) => b,
    }
}

/// A move that the oracle refuses leaves the game in `IllegalMove` with the
/// attempted move recorded, the selection the oracle directs, and the board
/// the oracle returned.
pub proof fn lemma_refused_move_recorded(out: UltimateOutput, mv: Move, r: GameStage)
    requires
        stage_after(out, mv, r),
        out.was_legal == 0,
    ensures
        r matches GameStage::IllegalMove(b, sel, m) && m == mv
            && sel == selection_for(out.next_grid)
            && decodes_output(b, out),
{
}

/// After a move from board `before`, subgrid `g` is recorded as won by `p`
/// when the oracle reports it so, and keeps its outcome from `before` when
/// the oracle leaves that outcome as it was, whether or not `g` is the
/// subgrid just played.
pub proof fn lemma_subgrid_outcomes_follow_oracle(
    before: BoardState,
    out: UltimateOutput,
    mv: Move,
    r: GameStage,
    g: int,
    p: Player,
)
    requires
        stage_after(out, mv, r),
        0 <= g < 9,
    ensures
        out.new_grid_winners@[g] == player_code(p) ==> stage_board(r).finished_grids@[g] == Some(
            PlayerOrDraw::Player(p),
        ),
        out.new_grid_winners@[g] == outcome_code(before.finished_grids@[g]) ==> stage_board(
            r,
        ).finished_grids@[g] == before.finished_grids@[g],
{
}

} // verus!
