//! The move engine: what a move makes of a board.
//!
//! The engine relocates a piece. It does not ask whose piece it is, whose turn it is, how the
//! piece moves or whether a king is left in check. It refuses a move only where there is
//! nothing to relocate, or where the move would take the king of the side that is not to move
//! off its square: that king is what the position after the move is read by.

use vstd::prelude::*;
use crate::binding::{
    after_move, board_is_sane, board_king, board_mover, board_piece, king_on, move_piece, piece_on,
    sane, waiting_on, BISHOP, BLACK, KING, KNIGHT, PAWN, QUEEN, ROOK, WHITE,
};
use crate::error::MoveError;

verus! {

/// A kind of piece, as a pawn may be promoted to.
#[derive(Clone, Copy, Debug, PartialEq, Eq, Structural)]
pub enum Piece {
    Pawn,
    Knight,
    Bishop,
    Rook,
    Queen,
    King,
}

impl Piece {
    /// The code of the kind: pawn, knight, bishop, rook, queen, king, counted from 0.
    pub open spec fn spec_code(self) -> u8 {
        match self {
            Piece::Pawn => PAWN,
            Piece::Knight => KNIGHT,
            Piece::Bishop => BISHOP,
            Piece::Rook => ROOK,
            Piece::Queen => QUEEN,
            Piece::King => KING,
        }
    }

    /// The code of the kind.
    #[verifier::when_used_as_spec(spec_code)]
    pub fn code(self) -> (r: u8)
        ensures
            r == self.spec_code(),
            r < 6,
    {
        match self {
            Piece::Pawn => PAWN,
            Piece::Knight => KNIGHT,
            Piece::Bishop => BISHOP,
            Piece::Rook => ROOK,
            Piece::Queen => QUEEN,
            Piece::King => KING,
        }
    }
}

/// The code of the piece to promote to, if there is one.
pub open spec fn promotion_code(promotion: Option<Piece>) -> Option<u8> {
    match promotion {
        Some(piece) => Some(piece.spec_code()),
        None => None,
    }
}

/// Whether a move can be carried out, given what the board reports: whether it is sound,
/// what stands on the origin square, and where the king of the side not to move stands.
pub open spec fn spec_movable(
    sound: bool,
    origin: Option<u8>,
    waiting_king: u8,
    from: u8,
    to: u8,
) -> bool {
    sound && origin is Some && from != waiting_king && to != waiting_king
}

/// Whether a move can be carried out, given what the board reports: whether it is sound,
/// what stands on the origin square, and where the king of the side not to move stands.
#[verifier::when_used_as_spec(spec_movable)]
pub fn movable(sound: bool, origin: Option<u8>, waiting_king: u8, from: u8, to: u8) -> (r: bool)
    ensures
        r == spec_movable(sound, origin, waiting_king, from, to),
{
    sound && origin.is_some() && from != waiting_king && to != waiting_king
}

/// Whether the engine carries out a move between two squares of a board.
pub open spec fn can_move(board: chess::Board, from: u8, to: u8) -> bool
    recommends
        from < 64,
        to < 64,
{
    spec_movable(sane(board), piece_on(board, from), king_on(board, waiting_on(board)), from, to)
}

/// What a move makes of a board: `InvalidSquare` where a number is no square of the board,
/// `IllegalMove` where the engine does not carry the move out, the board after the move
/// otherwise.
pub open spec fn applied(
    board: chess::Board,
    from: u8,
    to: u8,
    promotion: Option<Piece>,
) -> Result<chess::Board, MoveError> {
    if from >= 64 || to >= 64 {
        Err(MoveError::InvalidSquare)
    } else if !can_move(board, from, to) {
        Err(MoveError::IllegalMove)
    } else {
        Ok(after_move(board, from, to, promotion_code(promotion)))
    }
}

/// Relocates the piece on square `from` to square `to`, promoting a pawn to `promotion` where
/// one is given. Squares are numbered from `a1` (0) along the ranks to `h8` (63).
///
/// The move is refused with `IllegalMove` where the board is not sound, the origin square is
/// empty, or one of the two squares holds the king of the side that is not to move.
pub fn apply(board: &chess::Board, from: u8, to: u8, promotion: Option<Piece>) -> (r: Result<
    chess::Board,
    MoveError,
>)
    ensures
        r == applied(*board, from, to, promotion),
{
    if from >= 64 || to >= 64 {
        return Err(MoveError::InvalidSquare);
    }
    let sound: bool = board_is_sane(board);
    let origin = board_piece(board, from);
    let waiting: u8 = if board_mover(board) == WHITE {
        BLACK
    } else {
        WHITE
    };
    let waiting_king: u8 = board_king(board, waiting);
    if !movable(sound, origin, waiting_king, from, to) {
        return Err(MoveError::IllegalMove);
    }
    let code = match promotion {
        Some(piece) => Some(piece.code()),
        None => None,
    };
    Ok(move_piece(board, from, to, code))
}

} // verus!
