//! A registry of chess games between two players.
//!
//! A game is stored under the id that the registry handed out for it, as the names of its
//! players and the text of the position it has reached. A move names two squares; the
//! registry decodes the stored position, has the piece on the first square moved to the
//! second, and stores the position that results. The rules of chess are not enforced.
//!
//! - [`codec`] reads squares and positions from text and writes boards back to text,
//! - [`engine`] moves a piece on a board,
//! - [`game`] holds a game and plays a move in it,
//! - [`registry`] holds the games and hands out their ids,
//! - [`laws`] states what holds of every run of a registry,
//! - [`binding`] is what the library takes on trust from the `chess` crate, which reads,
//!   moves and writes the boards.

pub mod binding;
pub mod codec;
pub mod engine;
pub mod error;
pub mod game;
pub mod laws;
pub mod registry;

pub use engine::Piece;
pub use error::MoveError;
pub use game::ChessGame;
pub use registry::NearChess;
