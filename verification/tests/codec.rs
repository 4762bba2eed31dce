use std::str::FromStr;

use chess::{Board, Color, Piece, Square};
use near_chess::codec::{decode, encode, parse_square, reads_as_position, START_TEXT};
use near_chess::MoveError;

#[test]
fn squares_are_numbered_along_the_ranks() {
    assert_eq!(parse_square("a1"), Ok(0));
    assert_eq!(parse_square("b1"), Ok(1));
    assert_eq!(parse_square("h1"), Ok(7));
    assert_eq!(parse_square("a2"), Ok(8));
    assert_eq!(parse_square("e2"), Ok(12));
    assert_eq!(parse_square("e4"), Ok(28));
    assert_eq!(parse_square("a8"), Ok(56));
    assert_eq!(parse_square("h8"), Ok(63));
}

#[test]
fn every_square_name_is_read_as_its_number() {
    let files = ['a', 'b', 'c', 'd', 'e', 'f', 'g', 'h'];
    let ranks = ['1', '2', '3', '4', '5', '6', '7', '8'];
    for (r, rank) in ranks.iter().enumerate() {
        for (f, file) in files.iter().enumerate() {
            let name = format!("{}{}", file, rank);
            assert_eq!(parse_square(&name), Ok((r * 8 + f) as u8));
            assert_eq!(Square::from_str(&name).unwrap().to_int(), (r * 8 + f) as u8);
        }
    }
}

#[test]
fn malformed_square_names_are_refused() {
    for name in ["", "e", "2", "z9", "i1", "a0", "a9", "`1", "E2", "2e", "e22", "e2 ", " e2", "e2e4", "é2", "eé", "é", "a١"] {
        assert_eq!(parse_square(name), Err(MoveError::InvalidSquare), "{:?}", name);
    }
}

#[test]
fn starting_text_decodes_to_the_starting_board() {
    let board = decode(START_TEXT).unwrap();
    assert_eq!(board, Board::default());
    assert_eq!(board.side_to_move(), Color::White);
    assert_eq!(board.piece_on(Square::E1), Some(Piece::King));
    assert_eq!(board.piece_on(Square::E4), None);
}

#[test]
fn starting_board_encodes_to_the_starting_text() {
    assert_eq!(START_TEXT, "rnbqkbnr/pppppppp/8/8/8/8/PPPPPPPP/RNBQKBNR w KQkq - 0 1");
    assert_eq!(encode(&Board::default()), START_TEXT);
}

#[test]
fn decode_agrees_with_the_chess_crate() {
    let texts = [
        "rnbqkbnr/pppppppp/8/8/4P3/8/PPPP1PPP/RNBQKBNR b KQkq - 0 1",
        "r1bqkbnr/pppp1ppp/2n5/1B2p3/4P3/5N2/PPPP1PPP/RNBQK2R b KQkq - 0 1",
        "8/8/8/8/8/8/8/k6K w - - 0 1",
        "8/4P3/8/8/8/8/8/k6K b - - 0 1",
        "rnbqkbnr/ppp1pppp/8/8/3pP3/8/PPPP1PPP/RNBQKBNR b KQkq e3 0 1",
    ];
    for text in texts {
        let board = decode(text).expect(text);
        assert_eq!(board, Board::from_str(text).unwrap());
        assert!(board.is_sane());
    }
}

#[test]
fn encode_writes_what_decode_read() {
    let text = "r1bqkbnr/pppp1ppp/2n5/1B2p3/4P3/5N2/PPPP1PPP/RNBQK2R b KQkq - 0 1";
    assert_eq!(encode(&decode(text).unwrap()), text);
    let bare = "8/8/8/8/8/8/8/k6K w - - 0 1";
    assert_eq!(encode(&decode(bare).unwrap()), bare);
}

#[test]
fn text_that_is_no_position_is_malformed() {
    for text in [
        "",
        "nonsense",
        "rnbqkbnr/pppppppp/8/8/8/8/PPPPPPPP/RNBQKBNR",
        "rnbqkbnr/pppppppp/8/8/8/8/PPPPPPPP/RNBQKBNR w KQkq",
        "rnbqkbnr/pppppppp/8/8/8/8/PPPPPPPP/RNBQKBNR x KQkq - 0 1",
        "rnbqkbnr/pppppppp/8/8/8/8/PPPPPPPP/RNBQKBNX w KQkq - 0 1",
        "rnbqkbnr/pppppppp/9/8/8/8/PPPPPPPP/RNBQKBNR w KQkq - 0 1",
    ] {
        assert_eq!(decode(text), Err(MoveError::MalformedEncoding), "{:?}", text);
    }
}

#[test]
fn position_without_the_king_to_move_is_malformed() {
    assert_eq!(decode("8/8/8/8/8/8/8/8 w - - 0 1"), Err(MoveError::MalformedEncoding));
    assert_eq!(decode("8/8/8/8/8/8/8/8 b - - 0 1"), Err(MoveError::MalformedEncoding));
    assert_eq!(decode("8/8/8/8/8/8/8/4K3 b - - 0 1"), Err(MoveError::MalformedEncoding));
    assert_eq!(decode("4k3/8/8/8/8/8/8/8 w - - 0 1"), Err(MoveError::MalformedEncoding));
    assert_eq!(decode("K7R/8/8/8/8/8/8/k7 w - - 0 1"), Err(MoveError::MalformedEncoding));
}

#[test]
fn position_that_breaks_the_rules_is_malformed() {
    // The side that is not to move is in check.
    assert_eq!(decode("k7/8/8/8/8/8/8/K6r b - - 0 1"), Err(MoveError::MalformedEncoding));
    // The kings touch.
    assert_eq!(decode("8/8/8/8/8/8/8/kK6 w - - 0 1"), Err(MoveError::MalformedEncoding));
    // A king is missing on the side that is not to move.
    assert_eq!(decode("8/8/8/8/8/8/8/4K3 w - - 0 1"), Err(MoveError::MalformedEncoding));
    // Castling rights without the rooks.
    assert_eq!(decode("4k3/8/8/8/8/8/8/4K3 w KQkq - 0 1"), Err(MoveError::MalformedEncoding));
}

#[test]
fn text_reads_as_a_position_when_its_fields_do() {
    assert!(reads_as_position(START_TEXT));
    assert!(reads_as_position("8/8/8/8/8/8/8/8 w - - 0 1"));
    assert!(reads_as_position("8/8/8/8/8/8/8/kK6 b - -"));
    assert!(reads_as_position("k7/8/8/8/8/8/8/K6r b - - 0 1"));
    assert!(!reads_as_position(""));
    assert!(!reads_as_position("nonsense"));
    assert!(!reads_as_position("8/8/8/8/8/8/8/8 w -"));
    assert!(!reads_as_position("8/8/8/8/8/8/8/8 white - - 0 1"));
    assert!(!reads_as_position("8/8/8/8/8/8/8/7x w - - 0 1"));
}

#[test]
fn encoded_boards_read_as_positions() {
    let texts = [
        "rnbqkbnr/pppppppp/8/8/4P3/8/PPPP1PPP/RNBQKBNR b KQkq - 0 1",
        "8/8/8/8/8/8/8/k6K w - - 0 1",
        "rnbqkbnr/ppp1pppp/8/8/3pP3/8/PPPP1PPP/RNBQKBNR b KQkq e3 0 1",
        "r3k2r/8/8/8/8/8/8/R3K2R w Kq - 0 1",
    ];
    for text in texts {
        let board = Board::from_str(text).unwrap();
        assert!(reads_as_position(&encode(&board)));
    }
}
