//! What this library takes on trust from the `chess` crate.
//!
//! Boards and positions are values of the `chess` crate and opaque here. Each function of that
//! crate that the library calls has a private wrapper below, and what the call returns has a
//! name: a specification function without a body, of which nothing is known but that the same
//! arguments give the same result. Squares, piece kinds and colours cross the boundary as the
//! small numbers that the crate itself uses as indices.
//!
//! Nothing in this file is proved. Every other file of the library is.

use vstd::prelude::*;

verus! {

/// `chess::Board`: a position with the bookkeeping of the move generator.
#[verifier::external_type_specification]
#[verifier::external_body]
pub struct ExBoard(chess::Board);

/// `chess::BoardBuilder`: a position as it was read from text, not yet held to any rule.
#[verifier::external_type_specification]
#[verifier::external_body]
pub struct ExBoardBuilder(chess::BoardBuilder);

/// `chess::Error`: why the crate rejected a text or a position.
#[verifier::external_type_specification]
#[verifier::external_body]
pub struct ExError(chess::Error);

/// The colour code of White: `chess::Color::White.to_index()`.
pub const WHITE: u8 = 0;

/// The colour code of Black: `chess::Color::Black.to_index()`.
pub const BLACK: u8 = 1;

/// The piece code of a pawn: `chess::Piece::Pawn.to_index()`.
pub const PAWN: u8 = 0;

/// The piece code of a knight: `chess::Piece::Knight.to_index()`.
pub const KNIGHT: u8 = 1;

/// The piece code of a bishop: `chess::Piece::Bishop.to_index()`.
pub const BISHOP: u8 = 2;

/// The piece code of a rook: `chess::Piece::Rook.to_index()`.
pub const ROOK: u8 = 3;

/// The piece code of a queen: `chess::Piece::Queen.to_index()`.
pub const QUEEN: u8 = 4;

/// The piece code of a king: `chess::Piece::King.to_index()`.
pub const KING: u8 = 5;

/// The position that `chess::BoardBuilder::from_str` reads from a text, if it reads one.
pub uninterp spec fn position_of(text: Seq<char>) -> Option<chess::BoardBuilder>;

/// The piece code and the colour code that a position holds on a square, if it holds a piece
/// there.
pub uninterp spec fn piece_in(position: chess::BoardBuilder, square: u8) -> Option<(u8, u8)>;

/// The colour code of the side to move in a position.
pub uninterp spec fn mover_in(position: chess::BoardBuilder) -> u8;

/// The board that `chess::Board::try_from` builds from a position, if it accepts the position.
pub uninterp spec fn board_of(position: chess::BoardBuilder) -> Option<chess::Board>;

/// Whether `chess::Board::is_sane` accepts a board.
pub uninterp spec fn sane(board: chess::Board) -> bool;

/// The piece code that `chess::Board::piece_on` reports for a square, if it reports a piece.
pub uninterp spec fn piece_on(board: chess::Board, square: u8) -> Option<u8>;

/// The colour code of the side to move on a board.
pub uninterp spec fn mover_on(board: chess::Board) -> u8;

/// The number of the square that `chess::Board::king_square` reports for a colour.
pub uninterp spec fn king_on(board: chess::Board, colour: u8) -> u8;

/// The board that `chess::Board::make_move_new` returns for a move from one square to
/// another, with the code of the piece to promote to, if any.
pub uninterp spec fn after_move(
    board: chess::Board,
    from: u8,
    to: u8,
    promotion: Option<u8>,
) -> chess::Board;

/// The text that the `Display` of `chess::Board` writes for a board.
pub uninterp spec fn text_of(board: chess::Board) -> Seq<char>;

/// The colour code of the side that is not to move on a board.
pub open spec fn waiting_on(board: chess::Board) -> u8 {
    if mover_on(board) == WHITE {
        BLACK
    } else {
        WHITE
    }
}

/// Calls `chess::BoardBuilder::from_str`. The call reads the four leading fields of the text,
/// holds the position to no rule of chess and returns on every text; the contract only names
/// its result.
#[verifier::external_body]
pub(crate) fn parse_position(text: &str) -> (r: Result<chess::BoardBuilder, chess::Error>)
    ensures
        r is Ok <==> position_of(text@) is Some,
        r is Ok ==> position_of(text@) == Some(r->Ok_0),
{
    text.parse::<chess::BoardBuilder>()
}

/// Indexes a `chess::BoardBuilder` by a square. The square is taken from `chess::ALL_SQUARES`,
/// whose entry `n` is square number `n`; piece and colour come back as their `to_index()`.
#[verifier::external_body]
pub(crate) fn position_piece(position: &chess::BoardBuilder, square: u8) -> (r: Option<(u8, u8)>)
    requires
        square < 64,
    ensures
        r == piece_in(*position, square),
{
    let held = position[chess::ALL_SQUARES[square as usize]];
    held.map(|(piece, colour)| (piece.to_index() as u8, colour.to_index() as u8))
}

/// Calls `chess::BoardBuilder::get_side_to_move` and hands the colour back as its
/// `to_index()`.
#[verifier::external_body]
pub(crate) fn position_mover(position: &chess::BoardBuilder) -> (r: u8)
    ensures
        r == mover_in(*position),
{
    position.get_side_to_move().to_index() as u8
}

/// Calls `chess::Board::try_from` on a position. The crate places the pieces, then looks up
/// the king of the side to move in its attack tables, and only then asks whether the board is
/// sane: a position without that king is outside what the call is made for, and `requires`
/// leaves it out. What the crate returns as `Ok` has passed `is_sane`.
#[verifier::external_body]
pub(crate) fn build_board(position: &chess::BoardBuilder) -> (r: Result<chess::Board, chess::Error>)
    requires
        exists|square: u8|
            square < 64 && #[trigger] piece_in(*position, square) == Some(
                (KING, mover_in(*position)),
            ),
    ensures
        r is Ok <==> board_of(*position) is Some,
        r is Ok ==> board_of(*position) == Some(r->Ok_0) && sane(r->Ok_0),
{
    chess::Board::try_from(position)
}

/// Calls `chess::Board::is_sane`, which returns on every board.
#[verifier::external_body]
pub(crate) fn board_is_sane(board: &chess::Board) -> (r: bool)
    ensures
        r == sane(*board),
{
    board.is_sane()
}

/// Calls `chess::Board::piece_on` and hands the piece back as its `to_index()`.
#[verifier::external_body]
pub(crate) fn board_piece(board: &chess::Board, square: u8) -> (r: Option<u8>)
    requires
        square < 64,
    ensures
        r == piece_on(*board, square),
{
    board.piece_on(chess::ALL_SQUARES[square as usize]).map(|piece| piece.to_index() as u8)
}

/// Calls `chess::Board::side_to_move` and hands the colour back as its `to_index()`.
#[verifier::external_body]
pub(crate) fn board_mover(board: &chess::Board) -> (r: u8)
    ensures
        r == mover_on(*board),
{
    board.side_to_move().to_index() as u8
}

/// Calls `chess::Board::king_square` for the colour with the given code, taken from
/// `chess::ALL_COLORS`, and hands the square back as its number.
#[verifier::external_body]
pub(crate) fn board_king(board: &chess::Board, colour: u8) -> (r: u8)
    requires
        colour < 2,
    ensures
        r == king_on(*board, colour),
{
    board.king_square(chess::ALL_COLORS[colour as usize]).to_int()
}

/// Calls `chess::Board::make_move_new` with a move built by `chess::ChessMove::new`.
///
/// The crate holds the move to no rule of chess. It unwraps the piece on the origin square,
/// and after the move it looks up the king of the side that was not to move in its attack
/// tables. On a board that passes `is_sane` that king is still in place unless it stood on
/// one of the two squares, so `requires` leaves out an empty origin and a move from or onto
/// that king; on every other move the call returns.
#[verifier::external_body]
pub(crate) fn move_piece(
    board: &chess::Board,
    from: u8,
    to: u8,
    promotion: Option<u8>,
) -> (r: chess::Board)
    requires
        from < 64,
        to < 64,
        promotion is Some ==> promotion->0 < 6,
        sane(*board),
        piece_on(*board, from) is Some,
        from != king_on(*board, waiting_on(*board)),
        to != king_on(*board, waiting_on(*board)),
    ensures
        r == after_move(*board, from, to, promotion),
{
    let origin = chess::ALL_SQUARES[from as usize];
    let target = chess::ALL_SQUARES[to as usize];
    let promoted = promotion.map(|kind| chess::ALL_PIECES[kind as usize]);
    board.make_move_new(chess::ChessMove::new(origin, target, promoted))
}

/// Writes a board with its `Display`, through `to_string`. The crate's `Display` unwraps the
/// colour of every occupied square; the crate places and removes pieces only together with
/// their colour, so the call returns on every board that the crate hands out. What it writes
/// are six fields with one space between them: ranks of piece letters and digits, `w` or
/// `b`, castling letters or `-`, a square or `-`, `0` and `1`. `chess::BoardBuilder::from_str`
/// reads every such text as a position.
#[verifier::external_body]
pub(crate) fn board_to_text(board: &chess::Board) -> (r: String)
    ensures
        r@ == text_of(*board),
        position_of(r@) is Some,
{
    board.to_string()
}

/// Calls `chess::Board::default`, the position before the first move. The crate defines it
/// as the board that it reads from the text of `START_TEXT`, and writes it as that text.
#[verifier::external_body]
pub(crate) fn starting_board() -> (r: chess::Board)
    ensures
        text_of(r) == crate::codec::START_TEXT@,
        crate::codec::decoded(crate::codec::START_TEXT@) == Some(r),
{
    chess::Board::default()
}

/// Calls `chess::Square::from_string` and hands the square back as its number. The crate
/// looks at the first two characters only: a file letter `a`..`h`, then a rank digit
/// `1`..`8`; what follows them is ignored. Square `a1` is 0, `b1` is 1, `h8` is 63.
#[verifier::external_body]
#[allow(deprecated)]
pub(crate) fn square_from_text(text: &str) -> (r: Option<u8>)
    ensures
        r == crate::codec::leading_square(text@),
{
    chess::Square::from_string(text.to_string()).map(|square| square.to_int())
}

} // verus!
