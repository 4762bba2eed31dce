//! The ways in which submitting a move can fail.

use vstd::prelude::*;

verus! {

/// Why a move was not applied. Whatever the reason, nothing that was stored has changed.
#[derive(Clone, Copy, Debug, PartialEq, Eq, Structural)]
pub enum MoveError {
    /// No game is stored under the given id.
    GameNotFound,
    /// The stored text of the game's position does not decode to a board.
    MalformedEncoding,
    /// A square is not named by a file letter `a`..`h` followed by a rank digit `1`..`8`.
    InvalidSquare,
    /// The engine cannot carry out the move on the current position: the origin square is
    /// empty, or one of the two squares holds the king of the side that is not to move.
    IllegalMove,
}

impl MoveError {
    /// What to tell the caller.
    pub open spec fn message_text(self) -> Seq<char> {
        match self {
            MoveError::GameNotFound => "Game doesn't exist"@,
            MoveError::MalformedEncoding => "The stored position cannot be decoded"@,
            MoveError::InvalidSquare => "A square is named by a file a-h and a rank 1-8"@,
            MoveError::IllegalMove => "The move cannot be carried out on this position"@,
        }
    }

    /// What to tell the caller.
    pub fn message(self) -> (r: String)
        ensures
            r@ == self.message_text(),
    {
        match self {
            MoveError::GameNotFound => "Game doesn't exist".to_owned(),
            MoveError::MalformedEncoding => "The stored position cannot be decoded".to_owned(),
            MoveError::InvalidSquare => "A square is named by a file a-h and a rank 1-8".to_owned(),
            MoveError::IllegalMove => "The move cannot be carried out on this position".to_owned(),
        }
    }
}

} // verus!
