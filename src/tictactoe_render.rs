//! Rendering of a simple-game snapshot: each cell a 3×3 block of the matrix
//! holding an X for the first player or an O for the second.

use vstd::prelude::*;
use crate::matrix::{
    block_cell, block_cell_at, is_on_edge, on_edge, rgb, serpentine_index, xy,
    lemma_serpentine_index_inverse, Rgb, MATRIX_HEIGHT, MATRIX_LENGTH, MATRIX_WIDTH,
};
use crate::tictactoe::{stage_board, stage_well_formed, BoardState, GameStage, Player};

verus! {

pub open spec fn player_color_spec(p: Player) -> Rgb {
    match p {
        Player::PlayerOne => rgb(0, 0, 255),
        Player::PlayerTwo => rgb(255, 0, 0),
    }
}

/// The colour of a player's marks.
pub fn player_color(p: Player) -> (c: Rgb)
    ensures
        c == player_color_spec(p),
{
    match p {
        Player::PlayerOne => Rgb::new(0, 0, 255),
        Player::PlayerTwo => Rgb::new(255, 0, 0),
    }
}

/// Pixel `c` (0 to 8, row by row) of a 3×3 block belongs to the X: the
/// corners and the centre.
pub open spec fn in_x_mark(c: int) -> bool {
    c == 0 || c == 2 || c == 4 || c == 6 || c == 8
}

/// Pixel `c` of a 3×3 block belongs to the O: the middles of the four sides.
pub open spec fn in_o_mark(c: int) -> bool {
    c == 1 || c == 3 || c == 5 || c == 7
}

/// The faint red that fills the dark pixels of a refused cell.
pub open spec fn error_fill() -> Rgb {
    rgb(5, 0, 0)
}

/// The border colour of a drawn game.
pub open spec fn draw_border() -> Rgb {
    rgb(50, 50, 50)
}

/// First layer: the mark of each occupied cell in its player's colour.
pub open spec fn mark_layer(b: BoardState, x: int, y: int) -> Rgb {
    match block_cell_at(x, y) {
        Some((i, c)) => match b.board@[i] {
            Some(Player::PlayerOne) => if in_x_mark(c) {
                player_color_spec(Player::PlayerOne)
            } else {
                rgb(0, 0, 0)
            },
            Some(Player::PlayerTwo) => if in_o_mark(c) {
                player_color_spec(Player::PlayerTwo)
            } else {
                rgb(0, 0, 0)
            },
            None => rgb(0, 0, 0),
        },
        None => rgb(0, 0, 0),
    }
}

/// Second layer: the dark pixels of a refused cell's block turn faint red.
pub open spec fn illegal_layer(prev: Rgb, s: GameStage, x: int, y: int) -> Rgb {
    match s {
        GameStage::IllegalMove(_, m) => match block_cell_at(x, y) {
            Some((i, _)) => if i == m - 1 && prev == rgb(0, 0, 0) {
                error_fill()
            } else {
                prev
            },
            None => prev,
        },
        _ => prev,
    }
}

/// Last layer: the status border. A won game has its edge in the winner's
/// colour, a drawn one in gray; while the game goes on, the top row shows the
/// first player to move, or the bottom row the second.
pub open spec fn border_layer(prev: Rgb, s: GameStage, x: int, y: int) -> Rgb {
    match s {
        GameStage::Won(p, _) => if on_edge(x, y) {
            player_color_spec(p)
        } else {
            prev
        },
        GameStage::Draw(_) => if on_edge(x, y) {
            draw_border()
        } else {
            prev
        },
        _ => match stage_board(s).current_player {
            Player::PlayerOne => if y == 0 {
                player_color_spec(Player::PlayerOne)
            } else {
                prev
            },
            Player::PlayerTwo => if y == 15 {
                player_color_spec(Player::PlayerTwo)
            } else {
                prev
            },
        },
    }
}

/// The colour of pixel `(x, y)` for stage `s`: the layers one over the other.
pub open spec fn frame_pixel(s: GameStage, x: int, y: int) -> Rgb {
    let marks = mark_layer(stage_board(s), x, y);
    border_layer(illegal_layer(marks, s, x, y), s, x, y)
}

fn pixel_color(s: &GameStage, b: &BoardState, x: usize, y: usize) -> (c: Rgb)
    requires
        x < MATRIX_WIDTH,
        y < MATRIX_HEIGHT,
        *b == stage_board(*s),
        stage_well_formed(*s),
    ensures
        c == frame_pixel(*s, x as int, y as int),
{
    let cell = block_cell(x, y);

    let mut color = Rgb::black();
    if let Some((i, c)) = cell {
        match b.board[i] {
            Some(Player::PlayerOne) => if c % 2 == 0 {
                color = player_color(Player::PlayerOne);
            },
            Some(Player::PlayerTwo) => if c % 2 == 1 {
                color = player_color(Player::PlayerTwo);
            },
            None => {},
        }
    }

    if let GameStage::IllegalMove(_, m) = s {
        if let Some((i, _)) = cell {
            if i + 1 == *m as usize && color == Rgb::black() {
                color = Rgb::new(5, 0, 0);
            }
        }
    }

    match s {
        GameStage::Won(p, _) => {
            if is_on_edge(x, y) {
                color = player_color(*p);
            }
        },
        GameStage::Draw(_) => {
            if is_on_edge(x, y) {
                color = Rgb::new(50, 50, 50);
            }
        },
        _ => {
            match b.current_player {
                Player::PlayerOne => if y == 0 {
                    color = player_color(Player::PlayerOne);
                },
                Player::PlayerTwo => if y == 15 {
                    color = player_color(Player::PlayerTwo);
                },
            }
        },
    }
    color
}

/// Renders one frame of stage `s` for the strip: the pixel at column `x` and
/// row `y` of the matrix gets the colour [`frame_pixel`] gives it, at the
/// strip position [`xy`] wires it to.
pub fn render_frame(s: &GameStage) -> (colors: Vec<Rgb>)
    requires
        stage_well_formed(*s),
    ensures
        colors.len() == MATRIX_LENGTH,
        forall|x: int, y: int|
            #![trigger serpentine_index(x, y, 16)]
            0 <= x < 16 && 0 <= y < 16 ==> colors@[serpentine_index(x, y, 16)] == frame_pixel(
                *s,
                x,
                y,
            ),
{
    let b = s.board_state();
    let mut colors: Vec<Rgb> = Vec::new();
    for i in 0..MATRIX_LENGTH
        invariant
            colors.len() == i,
    {
        colors.push(Rgb::black());
    }
    for x in 0..MATRIX_WIDTH
        invariant
            colors.len() == MATRIX_LENGTH,
            b == stage_board(*s),
            stage_well_formed(*s),
            forall|x2: int, y2: int|
                0 <= x2 < x && 0 <= y2 < 16 ==> colors@[serpentine_index(x2, y2, 16)]
                    == frame_pixel(*s, x2, y2),
    {
        for y in 0..MATRIX_HEIGHT
            invariant
                x < 16,
                colors.len() == MATRIX_LENGTH,
                b == stage_board(*s),
                stage_well_formed(*s),
                forall|x2: int, y2: int|
                    0 <= x2 < x && 0 <= y2 < 16 ==> colors@[serpentine_index(x2, y2, 16)]
                        == frame_pixel(*s, x2, y2),
                forall|y2: int|
                    0 <= y2 < y ==> colors@[serpentine_index(x as int, y2, 16)] == frame_pixel(
                        *s,
                        x as int,
                        y2,
                    ),
        {
            let c = pixel_color(s, &b, x, y);
            let i = xy(x, y);
            proof {
                assert forall|x2: int, y2: int|
                    0 <= x2 < 16 && 0 <= y2 < 16 && (x2 != x || y2 != y) implies serpentine_index(
                        x2,
                        y2,
                        16,
                    ) != i by {
                    lemma_serpentine_index_inverse(x2, y2, 16, 16);
                    lemma_serpentine_index_inverse(x as int, y as int, 16, 16);
                }
            }
            colors.set(i, c);
        }
    }
    colors
}

} // verus!
