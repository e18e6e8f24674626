use led_tictactoe::input::KeyboardInput;
use led_tictactoe::matrix::{xy, Rgb};
use led_tictactoe::tictactoe::{BoardState, GameAction, GameStage, Player, TicTacToeOutput};
use led_tictactoe::tictactoe_render::render_frame;

fn board_of(codes: [u8; 9], current: Player) -> BoardState {
    let mut b = BoardState::new();
    for i in 0..9 {
        b.board[i] = Player::from_u8(codes[i]);
    }
    b.current_player = current;
    b
}

#[test]
fn player_codes() {
    assert_eq!(Player::from_u8(1), Some(Player::PlayerOne));
    assert_eq!(Player::from_u8(2), Some(Player::PlayerTwo));
    assert_eq!(Player::from_u8(0), None);
    assert_eq!(Player::from_u8(3), None);
    assert_eq!(Player::PlayerOne.to_u8(), 1);
    assert_eq!(Player::PlayerTwo.to_u8(), 2);
}

#[test]
fn board_encoding_for_the_oracle() {
    let b = board_of([1, 0, 2, 0, 1, 0, 0, 0, 2], Player::PlayerTwo);
    assert_eq!(b.board_as_u8_array(), [1, 0, 2, 0, 1, 0, 0, 0, 2]);
    let q = b.oracle_input(4);
    assert_eq!(q.current_state, [1, 0, 2, 0, 1, 0, 0, 0, 2]);
    assert_eq!(q.player_turn, 2);
    assert_eq!(q.proposed_move, 4);
}

#[test]
fn center_move_from_empty_board() {
    let b = BoardState::new();
    let q = b.oracle_input(5);
    assert_eq!(q.current_state, [0; 9]);
    assert_eq!(q.player_turn, 1);
    let out = TicTacToeOutput {
        was_legal: 1,
        new_state: [0, 0, 0, 0, 1, 0, 0, 0, 0],
        next_player_turn: 2,
        winner: 0,
    };
    match b.make_move(5, out) {
        GameStage::InProgress(n) => {
            assert_eq!(n.board[4], Some(Player::PlayerOne));
            assert_eq!(n.board.iter().filter(|c| c.is_some()).count(), 1);
            assert_eq!(n.current_player, Player::PlayerTwo);
        }
        other => panic!("unexpected stage {:?}", other),
    }
}

#[test]
fn three_in_a_row_wins() {
    let b = board_of([1, 1, 0, 2, 2, 0, 0, 0, 0], Player::PlayerOne);
    let out = TicTacToeOutput {
        was_legal: 1,
        new_state: [1, 1, 1, 2, 2, 0, 0, 0, 0],
        next_player_turn: 2,
        winner: 1,
    };
    match b.make_move(3, out) {
        GameStage::Won(p, n) => {
            assert_eq!(p, Player::PlayerOne);
            assert_eq!(&n.board[0..3], &[Some(Player::PlayerOne); 3]);
            assert_eq!(n.board[3], Some(Player::PlayerTwo));
        }
        other => panic!("unexpected stage {:?}", other),
    }
}

#[test]
fn full_board_without_line_is_a_draw() {
    let b = board_of([1, 2, 1, 1, 2, 2, 2, 1, 0], Player::PlayerOne);
    assert!(!b.is_draw());
    let out = TicTacToeOutput {
        was_legal: 1,
        new_state: [1, 2, 1, 1, 2, 2, 2, 1, 1],
        next_player_turn: 2,
        winner: 0,
    };
    match b.make_move(9, out) {
        GameStage::Draw(n) => {
            assert!(n.is_draw());
            assert_eq!(n.board[8], Some(Player::PlayerOne));
        }
        other => panic!("unexpected stage {:?}", other),
    }
}

#[test]
fn refused_move_is_kept() {
    let b = board_of([0, 0, 0, 0, 1, 0, 0, 0, 0], Player::PlayerTwo);
    let out = TicTacToeOutput {
        was_legal: 0,
        new_state: [0, 0, 0, 0, 1, 0, 0, 0, 0],
        next_player_turn: 2,
        winner: 0,
    };
    match b.make_move(5, out) {
        GameStage::IllegalMove(n, m) => {
            assert_eq!(m, 5);
            assert_eq!(n.board[4], Some(Player::PlayerOne));
            assert_eq!(n.current_player, Player::PlayerTwo);
        }
        other => panic!("unexpected stage {:?}", other),
    }
}

#[test]
fn key_presses_drive_the_game() {
    let start = GameStage::initial();
    assert!(matches!(start, GameStage::InProgress(b) if b.board == [None; 9]));
    assert!(matches!(start.next_action(KeyboardInput::Enter), GameAction::Ignore));
    assert!(matches!(start.next_action(KeyboardInput::Number(5)), GameAction::Ignore));
    assert!(matches!(start.next_action(KeyboardInput::ArrowLeft), GameAction::Ignore));
    assert!(matches!(start.next_action(KeyboardInput::Numpad(1)), GameAction::Play(_, 7)));
    assert!(matches!(start.next_action(KeyboardInput::Numpad(8)), GameAction::Play(_, 2)));

    let refused = GameStage::IllegalMove(BoardState::new(), 3);
    assert!(matches!(refused.next_action(KeyboardInput::Numpad(5)), GameAction::Play(_, 5)));

    let won = GameStage::Won(Player::PlayerTwo, board_of([2, 2, 2, 1, 1, 0, 0, 0, 0], Player::PlayerOne));
    assert!(matches!(won.next_action(KeyboardInput::Numpad(6)), GameAction::Ignore));
    match won.next_action(KeyboardInput::Enter) {
        GameAction::Publish(GameStage::InProgress(b)) => {
            assert_eq!(b.board, [None; 9]);
            assert_eq!(b.current_player, Player::PlayerOne);
        }
        other => panic!("unexpected action {:?}", other),
    }
}

#[test]
fn frame_of_a_game_in_progress() {
    let blue = Rgb::new(0, 0, 255);
    let red = Rgb::new(255, 0, 0);
    let f = render_frame(&GameStage::initial());
    assert_eq!(f.len(), 256);
    for x in 0..16 {
        assert_eq!(f[xy(x, 0)], blue);
        assert_eq!(f[xy(x, 15)], Rgb::black());
    }
    assert_eq!(f[xy(7, 7)], Rgb::black());

    let b = board_of([0, 0, 0, 0, 1, 0, 0, 0, 2], Player::PlayerTwo);
    let f = render_frame(&GameStage::InProgress(b));
    for (x, y) in [(6, 6), (7, 7), (8, 8), (6, 8), (8, 6)] {
        assert_eq!(f[xy(x, y)], blue);
    }
    for (x, y) in [(7, 6), (6, 7), (8, 7), (7, 8)] {
        assert_eq!(f[xy(x, y)], Rgb::black());
    }
    for (x, y) in [(12, 11), (11, 12), (13, 12), (12, 13)] {
        assert_eq!(f[xy(x, y)], red);
    }
    assert_eq!(f[xy(12, 12)], Rgb::black());
    assert_eq!(f[xy(3, 15)], red);
    assert_eq!(f[xy(3, 0)], Rgb::black());
}

#[test]
fn frame_of_a_refused_move() {
    let b = board_of([0, 0, 0, 0, 1, 0, 0, 0, 0], Player::PlayerTwo);
    let f = render_frame(&GameStage::IllegalMove(b, 5));
    assert_eq!(f[xy(6, 6)], Rgb::new(0, 0, 255));
    assert_eq!(f[xy(7, 6)], Rgb::new(5, 0, 0));
    assert_eq!(f[xy(1, 1)], Rgb::black());
}

#[test]
fn frame_borders_of_finished_games() {
    let b = board_of([2, 2, 2, 1, 1, 0, 0, 0, 0], Player::PlayerOne);
    let f = render_frame(&GameStage::Won(Player::PlayerTwo, b));
    for i in 0..16 {
        assert_eq!(f[xy(i, 0)], Rgb::new(255, 0, 0));
        assert_eq!(f[xy(i, 15)], Rgb::new(255, 0, 0));
        assert_eq!(f[xy(0, i)], Rgb::new(255, 0, 0));
        assert_eq!(f[xy(15, i)], Rgb::new(255, 0, 0));
    }
    let d = board_of([1, 2, 1, 1, 2, 2, 2, 1, 1], Player::PlayerTwo);
    let f = render_frame(&GameStage::Draw(d));
    for i in 0..16 {
        assert_eq!(f[xy(i, 0)], Rgb::new(50, 50, 50));
        assert_eq!(f[xy(0, i)], Rgb::new(50, 50, 50));
        assert_eq!(f[xy(15, i)], Rgb::new(50, 50, 50));
    }
    assert_eq!(f[xy(1, 1)], Rgb::new(0, 0, 255));
}
