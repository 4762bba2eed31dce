//! A game: two players and the text of the position they have reached.

use vstd::prelude::*;
use crate::binding::{starting_board, text_of};
use crate::codec::{decode, decoded, encode, is_position, parse_square, square_index, START_TEXT};
use crate::engine::{applied, apply};
use crate::error::MoveError;

verus! {

/// A game as the registry stores it.
#[derive(Debug, Clone)]
pub struct ChessGame {
    /// The first player. Nothing is asked of the two names: they may be empty or the same.
    pub player1: String,
    /// The second player.
    pub player2: String,
    /// The position that the game has reached, as text.
    pub board_fen: String,
}

/// What a stored game holds, character by character.
pub struct GameRecord {
    pub player1: Seq<char>,
    pub player2: Seq<char>,
    pub board_fen: Seq<char>,
}

/// The text of the position after a move between two named squares, or why there is none:
/// the text of the position must decode, then both names must be squares, then the engine
/// must carry the move out. The move never promotes.
pub open spec fn next_text(text: Seq<char>, square1: Seq<char>, square2: Seq<char>) -> Result<
    Seq<char>,
    MoveError,
> {
    match decoded(text) {
        None => Err(MoveError::MalformedEncoding),
        Some(board) => match (square_index(square1), square_index(square2)) {
            (Some(from), Some(to)) => match applied(board, from, to, None) {
                Ok(next) => Ok(text_of(next)),
                Err(e) => Err(e),
            },
            _ => Err(MoveError::InvalidSquare),
        },
    }
}

impl GameRecord {
    /// A game before the first move.
    pub open spec fn fresh(player1: Seq<char>, player2: Seq<char>) -> GameRecord {
        GameRecord { player1, player2, board_fen: START_TEXT@ }
    }

    /// The game after a move between two named squares, or why the move is refused.
    pub open spec fn played(self, square1: Seq<char>, square2: Seq<char>) -> Result<
        GameRecord,
        MoveError,
    > {
        match next_text(self.board_fen, square1, square2) {
            Ok(text) => Ok(
                GameRecord { player1: self.player1, player2: self.player2, board_fen: text },
            ),
            Err(e) => Err(e),
        }
    }
}

impl View for ChessGame {
    type V = GameRecord;

    open spec fn view(&self) -> GameRecord {
        GameRecord {
            player1: self.player1@,
            player2: self.player2@,
            board_fen: self.board_fen@,
        }
    }
}

impl ChessGame {
    /// A game between two players, at the position before the first move. Its text
    /// decodes: the game accepts moves.
    pub fn new(player1: String, player2: String) -> (r: ChessGame)
        ensures
            r@ == GameRecord::fresh(player1@, player2@),
            decoded(r@.board_fen) is Some,
            is_position(r@.board_fen),
    {
        let board = starting_board();
        ChessGame { player1, player2, board_fen: encode(&board) }
    }

    /// A copy of the game.
    pub fn duplicate(&self) -> (r: ChessGame)
        ensures
            r@ == self@,
    {
        ChessGame {
            player1: self.player1.clone(),
            player2: self.player2.clone(),
            board_fen: self.board_fen.clone(),
        }
    }

    /// The game after the piece on `square1` was moved to `square2`. The game itself is
    /// left as it is.
    ///
    /// The position is decoded, the two squares are read and the move is carried out, in
    /// this order; the first step that fails gives the error.
    pub fn play(&self, square1: &str, square2: &str) -> (r: Result<ChessGame, MoveError>)
        ensures
            match self@.played(square1@, square2@) {
                Ok(next) => r is Ok && r->Ok_0@ == next,
                Err(e) => r is Err && r->Err_0 == e,
            },
            r is Ok ==> is_position(r->Ok_0@.board_fen),
    {
        let board = match decode(self.board_fen.as_str()) {
            Ok(board) => board,
            Err(e) => {
                return Err(e);
            },
        };
        let from: u8 = match parse_square(square1) {
            Ok(from) => from,
            Err(e) => {
                return Err(e);
            },
        };
        let to: u8 = match parse_square(square2) {
            Ok(to) => to,
            Err(e) => {
                return Err(e);
            },
        };
        match apply(&board, from, to, None) {
            Ok(next) => Ok(
                ChessGame {
                    player1: self.player1.clone(),
                    player2: self.player2.clone(),
                    board_fen: encode(&next),
                },
            ),
            Err(e) => Err(e),
        }
    }
}

} // verus!
