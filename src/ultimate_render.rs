//! Rendering of a nested-game snapshot: one pixel per cell, each subgrid a
//! 3×3 block of the matrix.

use vstd::prelude::*;
use crate::matrix::{
    block_cell, block_cell_at, blend_spec, frame_block, frame_block_at, is_on_edge, on_edge, rgb,
    sat_add_spec, scale_spec, serpentine_index, xy, lemma_serpentine_index_inverse, Rgb,
    MATRIX_HEIGHT, MATRIX_LENGTH, MATRIX_WIDTH,
};
use crate::ultimate::{stage_board, BoardState, GameStage, NextUserSelection, Player, PlayerOrDraw};
use crate::ultimate::stage_well_formed;

verus! {

/// Intensity, out of 255, of the glow that marks a finished subgrid.
pub const BOARD_GLOW_AMOUNT: u8 = 10;

pub open spec fn player_color_spec(p: Player) -> Rgb {
    match p {
        Player::PlayerOne => rgb(0, 100, 0),
        Player::PlayerTwo => rgb(0, 0, 100),
    }
}

/// The colour of a player's marks.
pub fn player_color(p: Player) -> (c: Rgb)
    ensures
        c == player_color_spec(p),
{
    match p {
        Player::PlayerOne => Rgb::new(0, 100, 0),
        Player::PlayerTwo => Rgb::new(0, 0, 100),
    }
}

/// The colour of an outcome: the winner's, or white for a draw.
pub open spec fn outcome_color(o: PlayerOrDraw) -> Rgb {
    match o {
        PlayerOrDraw::Player(p) => player_color_spec(p),
        PlayerOrDraw::Draw => rgb(255, 255, 255),
    }
}

/// The dim glow over the empty cells and the frame of a finished subgrid.
pub open spec fn finished_glow(o: PlayerOrDraw) -> Rgb {
    scale_spec(outcome_color(o), BOARD_GLOW_AMOUNT)
}

fn finished_glow_color(o: PlayerOrDraw) -> (c: Rgb)
    ensures
        c == finished_glow(o),
{
    let base = match o {
        PlayerOrDraw::Player(p) => player_color(p),
        PlayerOrDraw::Draw => Rgb::new(255, 255, 255),
    };
    base.scale(BOARD_GLOW_AMOUNT)
}

/// The colour whose pulse marks the cells that may be selected.
pub open spec fn selection_glow() -> Rgb {
    rgb(5, 0, 5)
}

/// The red that pulses on a refused move.
pub open spec fn error_glow() -> Rgb {
    rgb(10, 0, 0)
}

/// The border colour of a drawn game.
pub open spec fn draw_border() -> Rgb {
    rgb(50, 50, 50)
}

/// First layer: each occupied cell in its player's colour, all else dark.
pub open spec fn mark_layer(b: BoardState, x: int, y: int) -> Rgb {
    match block_cell_at(x, y) {
        Some((g, c)) => match b.board@[g]@[c] {
            Some(p) => player_color_spec(p),
            None => rgb(0, 0, 0),
        },
        None => rgb(0, 0, 0),
    }
}

/// Second layer: a finished subgrid glows in its outcome's colour on its
/// empty cells and on its frame.
pub open spec fn finished_layer(prev: Rgb, b: BoardState, x: int, y: int) -> Rgb {
    match block_cell_at(x, y) {
        Some((g, c)) => match b.finished_grids@[g] {
            Some(o) => if b.board@[g]@[c] is None {
                finished_glow(o)
            } else {
                prev
            },
            None => prev,
        },
        None => match frame_block_at(x, y) {
            Some(g) => match b.finished_grids@[g] {
                Some(o) => finished_glow(o),
                None => prev,
            },
            None => prev,
        },
    }
}

/// Subgrid `g` (0 to 8) takes the next input: while a subgrid is to be
/// chosen, every unfinished one; once one is chosen, that one.
pub open spec fn selectable(s: GameStage, g: int) -> bool {
    let sel = match s {
        GameStage::InProgress(_, sel) => Some(sel),
        GameStage::IllegalMove(_, sel, _) => Some(sel),
        _ => None,
    };
    match sel {
        Some(NextUserSelection::SelectGrid) => stage_board(s).finished_grids@[g] is None,
        Some(NextUserSelection::SelectCell(n)) => g == n - 1,
        None => false,
    }
}

/// Third layer: the empty cells that may be chosen brighten by the selection
/// glow at `level / 255` of its strength.
pub open spec fn selection_layer(prev: Rgb, s: GameStage, level: u8, x: int, y: int) -> Rgb {
    match block_cell_at(x, y) {
        Some((g, c)) => if selectable(s, g) && stage_board(s).board@[g]@[c] is None {
            sat_add_spec(prev, scale_spec(selection_glow(), level))
        } else {
            prev
        },
        None => prev,
    }
}

/// Fourth layer: the cell of a refused move fades toward the error red by `level / 255`.
pub open spec fn illegal_layer(prev: Rgb, s: GameStage, level: u8, x: int, y: int) -> Rgb {
    match s {
        GameStage::IllegalMove(_, _, m) => if block_cell_at(x, y) == Some(
            ((m.grid - 1) as int, (m.cell - 1) as int),
        ) {
            blend_spec(error_glow(), prev, level)
        } else {
            prev
        },
        _ => prev,
    }
}

/// Last layer: the status border. A won game has its edge in the winner's
/// colour, a drawn one in gray; while the game goes on, the top row shows the
/// first player to move, or the bottom row the second.
pub open spec fn border_layer(prev: Rgb, s: GameStage, x: int, y: int) -> Rgb {
    match s {
        GameStage::Won(p, _) => if on_edge(x, y) {
            player_color_spec(p)
        } else {
            prev
        },
        GameStage::Draw(_) => if on_edge(x, y) {
            draw_border()
        } else {
            prev
        },
        _ => match stage_board(s).current_player {
            Player::PlayerOne => if y == 0 {
                player_color_spec(Player::PlayerOne)
            } else {
                prev
            },
            Player::PlayerTwo => if y == 15 {
                player_color_spec(Player::PlayerTwo)
            } else {
                prev
            },
        },
    }
}

/// The colour of pixel `(x, y)` for stage `s`: the layers one over the other,
/// the selection pulse at `selection_level` and the error pulse at `error_level`.
pub open spec fn frame_pixel(
    s: GameStage,
    selection_level: u8,
    error_level: u8,
    x: int,
    y: int,
) -> Rgb {
    let b = stage_board(s);
    let marks = mark_layer(b, x, y);
    let finished = finished_layer(marks, b, x, y);
    let selected = selection_layer(finished, s, selection_level, x, y);
    let refused = illegal_layer(selected, s, error_level, x, y);
    border_layer(refused, s, x, y)
}

fn pixel_color(
    s: &GameStage,
    b: &BoardState,
    selection_level: u8,
    error_level: u8,
    x: usize,
    y: usize,
) -> (c: Rgb)
    requires
        x < MATRIX_WIDTH,
        y < MATRIX_HEIGHT,
        *b == stage_board(*s),
        stage_well_formed(*s),
    ensures
        c == frame_pixel(*s, selection_level, error_level, x as int, y as int),
{
    let cell = block_cell(x, y);

    let mut color = Rgb::black();
    if let Some((g, c)) = cell {
        if let Some(p) = b.board[g][c] {
            color = player_color(p);
        }
    }
    assert(color == mark_layer(*b, x as int, y as int));

    match cell {
        Some((g, c)) => {
            if let Some(o) = b.finished_grids[g] {
                if b.board[g][c].is_none() {
                    color = finished_glow_color(o);
                }
            }
        },
        None => {
            if let Some(g) = frame_block(x, y) {
                if let Some(o) = b.finished_grids[g] {
                    color = finished_glow_color(o);
                }
            }
        },
    }

    let selection = match s {
        GameStage::InProgress(_, sel) => Some(*sel),
        GameStage::IllegalMove(_, sel, _) => Some(*sel),
        _ => None,
    };
    if let Some((g, c)) = cell {
        let eligible = match selection {
            Some(NextUserSelection::SelectGrid) => b.finished_grids[g].is_none(),
            Some(NextUserSelection::SelectCell(n)) => g + 1 == n as usize,
            None => false,
        };
        if eligible && b.board[g][c].is_none() {
            color = color.saturating_add(Rgb::new(5, 0, 5).scale(selection_level));
        }
    }

    if let GameStage::IllegalMove(_, _, m) = s {
        if let Some((g, c)) = cell {
            if g + 1 == m.grid as usize && c + 1 == m.cell as usize {
                color = Rgb::new(10, 0, 0).blend(color, error_level);
            }
        }
    }

    match s {
        GameStage::Won(p, _) => {
            if is_on_edge(x, y) {
                color = player_color(*p);
            }
        },
        GameStage::Draw(_) => {
            if is_on_edge(x, y) {
                color = Rgb::new(50, 50, 50);
            }
        },
        _ => {
            match b.current_player {
                Player::PlayerOne => if y == 0 {
                    color = player_color(Player::PlayerOne);
                },
                Player::PlayerTwo => if y == 15 {
                    color = player_color(Player::PlayerTwo);
                },
            }
        },
    }
    color
}

/// Renders one frame of stage `s` for the strip: the pixel at column `x` and
/// row `y` of the matrix gets the colour [`frame_pixel`] gives it, at the
/// strip position [`xy`] wires it to. `selection_level` and `error_level`
/// (out of 255) are the momentary strengths of the two pulsing glows.
pub fn render_frame(s: &GameStage, selection_level: u8, error_level: u8) -> (colors: Vec<Rgb>)
    requires
        stage_well_formed(*s),
    ensures
        colors.len() == MATRIX_LENGTH,
        forall|x: int, y: int|
            #![trigger serpentine_index(x, y, 16)]
            0 <= x < 16 && 0 <= y < 16 ==> colors@[serpentine_index(x, y, 16)] == frame_pixel(
                *s,
                selection_level,
                error_level,
                x,
                y,
            ),
{
    let b = s.board_state();
    let mut colors: Vec<Rgb> = Vec::new();
    for i in 0..MATRIX_LENGTH
        invariant
            colors.len() == i,
    {
        colors.push(Rgb::black());
    }
    for x in 0..MATRIX_WIDTH
        invariant
            colors.len() == MATRIX_LENGTH,
            b == stage_board(*s),
            stage_well_formed(*s),
            forall|x2: int, y2: int|
                0 <= x2 < x && 0 <= y2 < 16 ==> colors@[serpentine_index(x2, y2, 16)]
                    == frame_pixel(*s, selection_level, error_level, x2, y2),
    {
        for y in 0..MATRIX_HEIGHT
            invariant
                x < 16,
                colors.len() == MATRIX_LENGTH,
                b == stage_board(*s),
                stage_well_formed(*s),
                forall|x2: int, y2: int|
                    0 <= x2 < x && 0 <= y2 < 16 ==> colors@[serpentine_index(x2, y2, 16)]
                        == frame_pixel(*s, selection_level, error_level, x2, y2),
                forall|y2: int|
                    0 <= y2 < y ==> colors@[serpentine_index(x as int, y2, 16)] == frame_pixel(
                        *s,
                        selection_level,
                        error_level,
                        x as int,
                        y2,
                    ),
        {
            let c = pixel_color(s, &b, selection_level, error_level, x, y);
            let i = xy(x, y);
            proof {
                assert forall|x2: int, y2: int|
                    0 <= x2 < 16 && 0 <= y2 < 16 && (x2 != x || y2 != y) implies serpentine_index(
                        x2,
                        y2,
                        16,
                    ) != i by {
                    lemma_serpentine_index_inverse(x2, y2, 16, 16);
                    lemma_serpentine_index_inverse(x as int, y as int, 16, 16);
                }
            }
            colors.set(i, c);
        }
    }
    colors
}

} // verus!
