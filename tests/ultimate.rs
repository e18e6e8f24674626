use led_tictactoe::input::KeyboardInput;
use led_tictactoe::matrix::{xy, Rgb};
use led_tictactoe::ultimate::{
    BoardState, GameAction, GameStage, Move, NextUserSelection, Player, PlayerOrDraw,
    UltimateOutput,
};
use led_tictactoe::ultimate_render::render_frame;

/// Oracle answer that echoes `b` with the given legality, winner and next subgrid.
fn answer(b: &BoardState, legal: bool, next_player: u8, winner: u8, next_grid: u8) -> UltimateOutput {
    let q = b.oracle_input(1, 1);
    UltimateOutput {
        was_legal: legal as u8,
        new_grid_state: q.current_grid_state,
        new_grid_winners: q.current_grid_winners,
        next_player_turn: next_player,
        winner,
        next_grid,
    }
}

fn pixel_of(grid: usize, cell: usize) -> usize {
    xy(1 + (grid % 3) * 5 + cell % 3, 1 + (grid / 3) * 5 + cell / 3)
}

#[test]
fn ultimate_new_board_is_empty() {
    let b = BoardState::new();
    assert!(b.board.iter().all(|g| g.iter().all(|c| c.is_none())));
    assert!(b.finished_grids.iter().all(|g| g.is_none()));
    assert_eq!(b.current_player, Player::PlayerOne);
    assert!(!b.is_draw());
}

#[test]
fn ultimate_board_encoding_is_column_major() {
    let mut b = BoardState::new();
    b.board[2][5] = Some(Player::PlayerTwo);
    b.board[8][0] = Some(Player::PlayerOne);
    b.finished_grids[4] = Some(PlayerOrDraw::Draw);
    b.finished_grids[6] = Some(PlayerOrDraw::Player(Player::PlayerTwo));
    let codes = b.board_as_u8_array();
    assert_eq!(codes[2 + 9 * 5], 2);
    assert_eq!(codes[8], 1);
    assert_eq!(codes.iter().filter(|c| **c != 0).count(), 2);
    let q = b.oracle_input(3, 7);
    assert_eq!(q.current_grid_state, codes);
    assert_eq!(q.current_grid_winners, [0, 0, 0, 0, 3, 0, 2, 0, 0]);
    assert_eq!(q.player_turn, 1);
    assert_eq!(q.proposed_move_grid, 3);
    assert_eq!(q.proposed_move_cell, 7);
}

#[test]
fn ultimate_legal_move_follows_the_oracle() {
    let b = BoardState::new();
    let mut out = answer(&b, true, 2, 0, 5);
    out.new_grid_state[0 + 9 * 4] = 1;
    match b.make_move(1, 5, out) {
        GameStage::InProgress(n, sel) => {
            assert_eq!(n.board[0][4], Some(Player::PlayerOne));
            assert_eq!(n.current_player, Player::PlayerTwo);
            assert!(matches!(sel, NextUserSelection::SelectCell(5)));
        }
        other => panic!("unexpected stage {:?}", other),
    }
    let out = answer(&b, true, 2, 0, 0);
    assert!(matches!(b.make_move(1, 5, out), GameStage::InProgress(_, NextUserSelection::SelectGrid)));
}

#[test]
fn ultimate_move_into_occupied_cell_is_refused() {
    let mut b = BoardState::new();
    b.board[0][4] = Some(Player::PlayerOne);
    b.current_player = Player::PlayerTwo;
    let start = GameStage::InProgress(b, NextUserSelection::SelectCell(1));
    let mv = match start.next_action(KeyboardInput::Numpad(5)) {
        GameAction::Play(pb, m) => {
            assert_eq!(pb.board[0][4], Some(Player::PlayerOne));
            m
        }
        other => panic!("unexpected action {:?}", other),
    };
    assert_eq!(mv, Move { grid: 1, cell: 5 });
    let out = answer(&b, false, 2, 0, 1);
    match b.make_move(mv.grid, mv.cell, out) {
        GameStage::IllegalMove(n, sel, m) => {
            assert_eq!(m, Move { grid: 1, cell: 5 });
            assert!(matches!(sel, NextUserSelection::SelectCell(1)));
            assert_eq!(n.board[0][4], Some(Player::PlayerOne));
            assert_eq!(n.current_player, Player::PlayerTwo);
        }
        other => panic!("unexpected stage {:?}", other),
    }
}

#[test]
fn ultimate_winning_line_closes_subgrid() {
    let mut b = BoardState::new();
    b.board[2][0] = Some(Player::PlayerOne);
    b.board[2][1] = Some(Player::PlayerOne);
    b.board[0][0] = Some(Player::PlayerTwo);
    b.finished_grids[7] = Some(PlayerOrDraw::Player(Player::PlayerTwo));
    let mut out = answer(&b, true, 2, 0, 3);
    out.new_grid_state[2 + 9 * 2] = 1;
    out.new_grid_winners[2] = 1;
    match b.make_move(3, 3, out) {
        GameStage::InProgress(n, sel) => {
            assert_eq!(n.finished_grids[2], Some(PlayerOrDraw::Player(Player::PlayerOne)));
            assert_eq!(n.finished_grids[7], Some(PlayerOrDraw::Player(Player::PlayerTwo)));
            for g in [0, 1, 3, 4, 5, 6, 8] {
                assert_eq!(n.finished_grids[g], None);
            }
            assert_eq!(n.board[2][0..3], [Some(Player::PlayerOne); 3]);
            assert_eq!(n.board[0][0], Some(Player::PlayerTwo));
            assert!(matches!(sel, NextUserSelection::SelectCell(3)));
        }
        other => panic!("unexpected stage {:?}", other),
    }
}

#[test]
fn ultimate_winner_and_draw() {
    let b = BoardState::new();
    let out = answer(&b, true, 1, 2, 0);
    assert!(matches!(b.make_move(4, 4, out), GameStage::Won(Player::PlayerTwo, _)));

    let mut full = BoardState::new();
    for g in 0..9 {
        for c in 0..9 {
            full.board[g][c] = Some(if (g + c) % 2 == 0 { Player::PlayerOne } else { Player::PlayerTwo });
        }
    }
    assert!(full.is_draw());
    let out = answer(&full, true, 2, 0, 0);
    assert!(matches!(b.make_move(9, 9, out), GameStage::Draw(n) if n.is_draw()));
}

#[test]
fn ultimate_key_presses_select_grid_then_cell() {
    let start = GameStage::initial();
    assert!(matches!(start, GameStage::InProgress(_, NextUserSelection::SelectCell(1))));
    assert!(matches!(start.next_action(KeyboardInput::Number(3)), GameAction::Ignore));
    assert!(matches!(start.next_action(KeyboardInput::Enter), GameAction::Ignore));
    assert!(matches!(
        start.next_action(KeyboardInput::Numpad(9)),
        GameAction::Play(_, Move { grid: 1, cell: 3 })
    ));

    let free = GameStage::InProgress(BoardState::new(), NextUserSelection::SelectGrid);
    match free.next_action(KeyboardInput::Numpad(1)) {
        GameAction::Publish(GameStage::InProgress(_, NextUserSelection::SelectCell(7))) => {}
        other => panic!("unexpected action {:?}", other),
    }

    let drawn = GameStage::Draw(BoardState::new());
    assert!(matches!(drawn.next_action(KeyboardInput::Numpad(1)), GameAction::Ignore));
    assert!(matches!(
        drawn.next_action(KeyboardInput::Enter),
        GameAction::Publish(GameStage::InProgress(_, NextUserSelection::SelectCell(1)))
    ));
}

#[test]
fn ultimate_frame_layers() {
    let green = Rgb::new(0, 100, 0);
    let blue = Rgb::new(0, 0, 100);
    let mut b = BoardState::new();
    b.board[0][0] = Some(Player::PlayerOne);
    b.board[0][4] = Some(Player::PlayerTwo);
    b.board[4][4] = Some(Player::PlayerOne);
    b.finished_grids[4] = Some(PlayerOrDraw::Player(Player::PlayerOne));

    let f = render_frame(&GameStage::InProgress(b, NextUserSelection::SelectCell(1)), 255, 0);
    assert_eq!(f[pixel_of(0, 0)], green);
    assert_eq!(f[pixel_of(0, 4)], blue);
    assert_eq!(f[pixel_of(0, 1)], Rgb::new(5, 0, 5));
    assert_eq!(f[pixel_of(1, 1)], Rgb::black());
    assert_eq!(f[pixel_of(4, 4)], green);
    assert_eq!(f[pixel_of(4, 0)], Rgb::new(0, 3, 0));
    assert_eq!(f[xy(5, 5)], Rgb::new(0, 3, 0));
    assert_eq!(f[xy(9, 7)], Rgb::new(0, 3, 0));
    assert_eq!(f[xy(4, 4)], Rgb::black());
    for x in 0..16 {
        assert_eq!(f[xy(x, 0)], green);
    }

    let f = render_frame(&GameStage::InProgress(b, NextUserSelection::SelectGrid), 255, 0);
    assert_eq!(f[pixel_of(8, 8)], Rgb::new(5, 0, 5));
    assert_eq!(f[pixel_of(4, 0)], Rgb::new(0, 3, 0));

    let f = render_frame(&GameStage::InProgress(b, NextUserSelection::SelectCell(1)), 0, 0);
    assert_eq!(f[pixel_of(0, 1)], Rgb::black());
}

#[test]
fn ultimate_frame_of_refused_move_and_end() {
    let mut b = BoardState::new();
    b.board[0][4] = Some(Player::PlayerOne);
    b.current_player = Player::PlayerTwo;
    let stage = GameStage::IllegalMove(b, NextUserSelection::SelectCell(1), Move { grid: 1, cell: 5 });
    let f = render_frame(&stage, 0, 255);
    assert_eq!(f[pixel_of(0, 4)], Rgb::new(10, 0, 0));
    for x in 0..16 {
        assert_eq!(f[xy(x, 15)], Rgb::new(0, 0, 100));
        assert_eq!(f[xy(x, 0)], Rgb::black());
    }
    let f = render_frame(&stage, 0, 0);
    assert_eq!(f[pixel_of(0, 4)], Rgb::new(0, 100, 0));

    let f = render_frame(&GameStage::Won(Player::PlayerTwo, b), 0, 0);
    for i in 0..16 {
        assert_eq!(f[xy(0, i)], Rgb::new(0, 0, 100));
        assert_eq!(f[xy(i, 15)], Rgb::new(0, 0, 100));
    }
    let f = render_frame(&GameStage::Draw(b), 0, 0);
    for i in 0..16 {
        assert_eq!(f[xy(15, i)], Rgb::new(50, 50, 50));
        assert_eq!(f[xy(i, 0)], Rgb::new(50, 50, 50));
    }
}
