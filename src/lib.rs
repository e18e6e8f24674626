//! Core of a small LED-matrix game console: the game-state machines of a
//! 3×3 tic-tac-toe and of its nested nine-board variant, the decoding of key
//! presses, and the renderer that turns a game snapshot into the pixels of a
//! 16×16 serpentine-wired LED matrix.
//!
//! - [`matrix`]: colours, the serpentine wiring and the block layout.
//! - [`player`], [`input`]: the players and the key presses.
//! - [`tictactoe`], [`tictactoe_render`]: the simple game and its frames.
//! - [`ultimate`], [`ultimate_render`]: the nested game and its frames.
//!
//! The rules themselves are an outside oracle: the game modules prepare its
//! question, and turn its answer into the next game stage.

pub mod input;
pub mod matrix;
pub mod player;
pub mod tictactoe;
pub mod tictactoe_render;
pub mod ultimate;
pub mod ultimate_render;
