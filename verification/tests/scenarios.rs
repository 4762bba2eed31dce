use std::str::FromStr;

use chess::{Board, Color, Piece, Square};
use near_chess::{MoveError, NearChess};

const START: &str = "rnbqkbnr/pppppppp/8/8/8/8/PPPPPPPP/RNBQKBNR w KQkq - 0 1";

fn stored_board(registry: &NearChess, game_id: u64) -> Board {
    let game = registry.get_game(game_id).expect("the game is stored");
    Board::from_str(&game.board_fen).expect("the stored text decodes")
}

#[test]
fn first_game_gets_id_one_and_the_starting_position() {
    let mut registry = NearChess::new();
    let id = registry.start("alice".to_string(), "bob".to_string());
    assert_eq!(id, 1);
    assert_eq!(registry.max_game_id(), 1);
    let game = registry.get_game(1).unwrap();
    assert_eq!(game.player1, "alice");
    assert_eq!(game.player2, "bob");
    assert_eq!(game.board_fen, START);
    let board = stored_board(&registry, 1);
    assert_eq!(board, Board::default());
    assert_eq!(board.side_to_move(), Color::White);
}

#[test]
fn pawn_moves_from_e2_to_e4() {
    let mut registry = NearChess::new();
    registry.start("alice".to_string(), "bob".to_string());
    let before = stored_board(&registry, 1);
    assert_eq!(before.piece_on(Square::E2), Some(Piece::Pawn));
    assert_eq!(registry.make_move(1, "e2".to_string(), "e4".to_string()), Ok(()));
    let after = stored_board(&registry, 1);
    assert_eq!(after.piece_on(Square::E4), Some(Piece::Pawn));
    assert_eq!(after.color_on(Square::E4), Some(Color::White));
    assert_eq!(after.piece_on(Square::E2), None);
    assert_eq!(after.side_to_move(), Color::Black);
    assert_eq!(
        registry.get_game(1).unwrap().board_fen,
        "rnbqkbnr/pppppppp/8/8/4P3/8/PPPP1PPP/RNBQKBNR b KQkq - 0 1"
    );
}

#[test]
fn move_in_unknown_game_is_refused() {
    let mut registry = NearChess::new();
    registry.start("alice".to_string(), "bob".to_string());
    assert_eq!(
        registry.make_move(999, "e2".to_string(), "e4".to_string()),
        Err(MoveError::GameNotFound)
    );
    assert!(registry.get_game(999).is_none());
    assert_eq!(registry.max_game_id(), 1);
    assert_eq!(registry.get_game(1).unwrap().board_fen, START);
}

#[test]
fn move_from_unknown_square_is_refused() {
    let mut registry = NearChess::new();
    registry.start("alice".to_string(), "bob".to_string());
    assert_eq!(
        registry.make_move(1, "z9".to_string(), "e4".to_string()),
        Err(MoveError::InvalidSquare)
    );
    let game = registry.get_game(1).unwrap();
    assert_eq!(game.player1, "alice");
    assert_eq!(game.player2, "bob");
    assert_eq!(game.board_fen, START);
}

#[test]
fn two_games_do_not_interfere() {
    let mut registry = NearChess::new();
    let first = registry.start("alice".to_string(), "bob".to_string());
    let second = registry.start("carol".to_string(), "dave".to_string());
    assert_eq!(first, 1);
    assert_eq!(second, 2);
    assert_eq!(registry.make_move(1, "e2".to_string(), "e4".to_string()), Ok(()));
    assert_eq!(registry.get_game(2).unwrap().board_fen, START);
    assert_eq!(registry.make_move(2, "d2".to_string(), "d4".to_string()), Ok(()));
    assert_eq!(
        registry.get_game(1).unwrap().board_fen,
        "rnbqkbnr/pppppppp/8/8/4P3/8/PPPP1PPP/RNBQKBNR b KQkq - 0 1"
    );
    assert_eq!(
        registry.get_game(2).unwrap().board_fen,
        "rnbqkbnr/pppppppp/8/8/3P4/8/PPP1PPPP/RNBQKBNR b KQkq - 0 1"
    );
    assert_eq!(registry.get_game(2).unwrap().player1, "carol");
}
