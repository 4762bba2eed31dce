//! The board codec: squares from their two-character names, boards from and to their text.

use vstd::prelude::*;
use crate::binding::{
    board_of, board_to_text, build_board, mover_in, parse_position, piece_in, position_mover,
    position_of, position_piece, sane, square_from_text, text_of, KING,
};
use crate::error::MoveError;

verus! {

/// The text of the position before the first move: White to move, every castling right, no
/// en-passant square.
pub const START_TEXT: &'static str = "rnbqkbnr/pppppppp/8/8/8/8/PPPPPPPP/RNBQKBNR w KQkq - 0 1";

/// Whether a character names a file of the board.
pub open spec fn is_file(c: char) -> bool {
    'a' <= c <= 'h'
}

/// Whether a character names a rank of the board.
pub open spec fn is_rank(c: char) -> bool {
    '1' <= c <= '8'
}

/// The number of the square on a file and a rank: eight squares to a rank, `a1` first.
pub open spec fn square_number(file: char, rank: char) -> u8
    recommends
        is_file(file),
        is_rank(rank),
{
    ((rank as int - '1' as int) * 8 + (file as int - 'a' as int)) as u8
}

/// The square that the first two characters of a text name, whatever follows them.
pub open spec fn leading_square(text: Seq<char>) -> Option<u8> {
    if text.len() >= 2 && is_file(text[0]) && is_rank(text[1]) {
        Some(square_number(text[0], text[1]))
    } else {
        None
    }
}

/// The square that a text names: the text is a file letter followed by a rank digit, and
/// nothing else.
pub open spec fn square_index(text: Seq<char>) -> Option<u8> {
    if text.len() == 2 {
        leading_square(text)
    } else {
        None
    }
}

/// Reads a square from its name, or fails with `InvalidSquare`: the text must be exactly
/// one of `a1` .. `h8`. Squares are numbered along the ranks: `a1` is 0, `b1` is 1, `a2` is
/// 8, `h8` is 63.
pub fn parse_square(text: &str) -> (r: Result<u8, MoveError>)
    ensures
        match square_index(text@) {
            Some(square) => r == Ok::<u8, MoveError>(square) && square < 64,
            None => r == Err::<u8, MoveError>(MoveError::InvalidSquare),
        },
{
    if text.unicode_len() != 2 {
        return Err(MoveError::InvalidSquare);
    }
    match square_from_text(text) {
        Some(square) => Ok(square),
        None => Err(MoveError::InvalidSquare),
    }
}

/// Whether a text reads as a position: it has the fields and the characters of one. Whether
/// the position is one that a game can reach is another matter.
pub open spec fn is_position(text: Seq<char>) -> bool {
    position_of(text) is Some
}

/// Whether a text reads as a position.
pub fn reads_as_position(text: &str) -> (r: bool)
    ensures
        r == is_position(text@),
{
    parse_position(text).is_ok()
}

/// Whether a position holds a king of the given colour on some square.
pub open spec fn has_king(position: chess::BoardBuilder, colour: u8) -> bool {
    exists|square: u8| square < 64 && #[trigger] piece_in(position, square) == Some((KING, colour))
}

/// The board that a text decodes to: the text reads as a position, the position holds the
/// king of the side to move, and the position builds a board.
pub open spec fn decoded(text: Seq<char>) -> Option<chess::Board> {
    match position_of(text) {
        Some(position) => if has_king(position, mover_in(position)) {
            board_of(position)
        } else {
            None
        },
        None => None,
    }
}

/// Looks for a king of the given colour on the sixty-four squares of a position.
fn holds_king(position: &chess::BoardBuilder, colour: u8) -> (r: bool)
    ensures
        r == has_king(*position, colour),
{
    let mut square: u8 = 0;
    while square < 64
        invariant
            square <= 64,
            forall|s: u8| s < square ==> #[trigger] piece_in(*position, s) != Some((KING, colour)),
        decreases 64 - square,
    {
        match position_piece(position, square) {
            Some((kind, side)) => {
                if kind == KING && side == colour {
                    return true;
                }
            },
            None => {},
        }
        square += 1;
    }
    false
}

/// Decodes the text of a position into a board, or fails with `MalformedEncoding`. A board
/// that comes out of this is sound.
pub fn decode(text: &str) -> (r: Result<chess::Board, MoveError>)
    ensures
        match decoded(text@) {
            Some(board) => r == Ok::<chess::Board, MoveError>(board) && sane(board),
            None => r == Err::<chess::Board, MoveError>(MoveError::MalformedEncoding),
        },
{
    let position = match parse_position(text) {
        Ok(position) => position,
        Err(_) => {
            return Err(MoveError::MalformedEncoding);
        },
    };
    if !holds_king(&position, position_mover(&position)) {
        return Err(MoveError::MalformedEncoding);
    }
    match build_board(&position) {
        Ok(board) => Ok(board),
        Err(_) => Err(MoveError::MalformedEncoding),
    }
}

/// Encodes a board as the text of its position. The text reads as a position again.
pub fn encode(board: &chess::Board) -> (r: String)
    ensures
        r@ == text_of(*board),
        is_position(r@),
{
    board_to_text(board)
}

} // verus!
