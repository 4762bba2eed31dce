//! The game registry: games under the ids it hands out, and the moves submitted to them.

use std::collections::HashMap;
use vstd::prelude::*;
use vstd::std_specs::hash::group_hash_axioms;
use crate::codec::{decoded, is_position, reads_as_position};
use crate::error::MoveError;
use crate::game::{ChessGame, GameRecord};

verus! {

broadcast use group_hash_axioms;

/// What a registry holds: the stored games by id, and the last id handed out.
pub struct Registry {
    pub games: Map<u64, GameRecord>,
    pub max_game_id: u64,
}

impl Registry {
    /// The registry before the first game.
    pub open spec fn empty() -> Registry {
        Registry { games: Map::empty(), max_game_id: 0 }
    }

    /// Every stored game has an id that was handed out: ids start at 1 and none lies beyond
    /// the last one.
    pub open spec fn ids_handed_out(self) -> bool {
        forall|id: u64| self.games.contains_key(id) ==> 1 <= id <= self.max_game_id
    }

    /// The text of every stored game reads as a position.
    pub open spec fn texts_are_positions(self) -> bool {
        forall|id: u64|
            self.games.contains_key(id) ==> is_position(#[trigger] self.games[id].board_fen)
    }

    /// What holds of a registry between calls.
    pub open spec fn wf(self) -> bool {
        self.ids_handed_out() && self.texts_are_positions()
    }

    /// The id that the next game gets.
    pub open spec fn next_id(self) -> u64
        recommends
            self.max_game_id < u64::MAX,
    {
        (self.max_game_id + 1) as u64
    }

    /// The registry after a game between two players was started.
    pub open spec fn started(self, player1: Seq<char>, player2: Seq<char>) -> Registry
        recommends
            self.max_game_id < u64::MAX,
    {
        Registry {
            games: self.games.insert(self.next_id(), GameRecord::fresh(player1, player2)),
            max_game_id: self.next_id(),
        }
    }

    /// What a submitted move makes of the game it names: the game after the move, or why
    /// the move is refused.
    pub open spec fn move_outcome(
        self,
        game_id: u64,
        square1: Seq<char>,
        square2: Seq<char>,
    ) -> Result<GameRecord, MoveError> {
        if self.games.contains_key(game_id) {
            self.games[game_id].played(square1, square2)
        } else {
            Err(MoveError::GameNotFound)
        }
    }

    /// The registry after a move was submitted: the named game is replaced where the move
    /// is carried out, and nothing changes where it is refused.
    pub open spec fn moved(
        self,
        game_id: u64,
        square1: Seq<char>,
        square2: Seq<char>,
    ) -> Registry {
        match self.move_outcome(game_id, square1, square2) {
            Ok(next) => Registry {
                games: self.games.insert(game_id, next),
                max_game_id: self.max_game_id,
            },
            Err(_) => self,
        }
    }
}

/// The registry of games.
pub struct NearChess {
    games: HashMap<u64, ChessGame>,
    max_game_id: u64,
}

impl View for NearChess {
    type V = Registry;

    closed spec fn view(&self) -> Registry {
        Registry {
            games: self.games@.map_values(|game: ChessGame| game@),
            max_game_id: self.max_game_id,
        }
    }
}

impl NearChess {
    /// A registry without games; the first game will get id 1.
    pub fn new() -> (r: NearChess)
        ensures
            r@ == Registry::empty(),
            r@.wf(),
    {
        let r = NearChess { games: HashMap::new(), max_game_id: 0 };
        assert(r@.games =~= Map::empty());
        r
    }

    /// A registry without games that has handed out the ids up to `max_game_id`, for
    /// loading games that were stored elsewhere.
    pub fn restore(max_game_id: u64) -> (r: NearChess)
        ensures
            r@ == (Registry { games: Map::empty(), max_game_id }),
            r@.wf(),
    {
        let r = NearChess { games: HashMap::new(), max_game_id };
        assert(r@.games =~= Map::empty());
        r
    }

    /// Stores a game under an id that was handed out, in place of the game that was stored
    /// under it, if any. Returns whether it did: an id that was never handed out is refused,
    /// and so is a game whose text does not read as a position.
    pub fn load_game(&mut self, game_id: u64, game: ChessGame) -> (stored: bool)
        ensures
            stored == (1 <= game_id <= old(self)@.max_game_id && is_position(game@.board_fen)),
            stored ==> final(self)@ == (Registry {
                games: old(self)@.games.insert(game_id, game@),
                max_game_id: old(self)@.max_game_id,
            }),
            !stored ==> final(self)@ == old(self)@,
            old(self)@.wf() ==> final(self)@.wf(),
    {
        if game_id < 1 || game_id > self.max_game_id {
            return false;
        }
        if !reads_as_position(game.board_fen.as_str()) {
            return false;
        }
        self.games.insert(game_id, game);
        assert(self@.games =~= old(self)@.games.insert(game_id, game@));
        true
    }

    /// The last id handed out; 0 before the first game.
    pub fn max_game_id(&self) -> (r: u64)
        ensures
            r == self@.max_game_id,
    {
        self.max_game_id
    }

    /// A copy of the game stored under an id, if there is one.
    pub fn get_game(&self, game_id: u64) -> (r: Option<ChessGame>)
        ensures
            r is Some <==> self@.games.contains_key(game_id),
            r is Some ==> r->0@ == self@.games[game_id],
    {
        match self.games.get(&game_id) {
            Some(game) => Some(game.duplicate()),
            None => None,
        }
    }

    /// Starts a game between two players at the position before the first move, and
    /// returns its id: one more than the last id handed out.
    pub fn start(&mut self, player1: String, player2: String) -> (game_id: u64)
        requires
            old(self)@.max_game_id < u64::MAX,
        ensures
            game_id == old(self)@.max_game_id + 1,
            final(self)@ == old(self)@.started(player1@, player2@),
            decoded(final(self)@.games[game_id].board_fen) is Some,
            old(self)@.ids_handed_out() ==> !old(self)@.games.contains_key(game_id),
            old(self)@.wf() ==> final(self)@.wf(),
    {
        let game_id: u64 = self.max_game_id + 1;
        self.max_game_id = game_id;
        self.games.insert(game_id, ChessGame::new(player1, player2));
        assert(self@.games =~= old(self)@.games.insert(
            game_id,
            GameRecord::fresh(player1@, player2@),
        ));
        game_id
    }

    /// Moves the piece on `square1` to `square2` in the game stored under `game_id`.
    ///
    /// The game is looked up, its position decoded, the two squares read and the move
    /// carried out, in this order; the first step that fails gives the error. Only when
    /// every step has succeeded is the game replaced by the game after the move.
    pub fn make_move(&mut self, game_id: u64, square1: String, square2: String) -> (r: Result<
        (),
        MoveError,
    >)
        ensures
            match old(self)@.move_outcome(game_id, square1@, square2@) {
                Ok(_) => r is Ok,
                Err(e) => r is Err && r->Err_0 == e,
            },
            final(self)@ == old(self)@.moved(game_id, square1@, square2@),
            r is Err ==> final(self)@ == old(self)@,
            final(self)@.max_game_id == old(self)@.max_game_id,
            forall|other: u64|
                other != game_id ==> #[trigger] final(self)@.games.contains_key(other)
                    == old(self)@.games.contains_key(other),
            forall|other: u64|
                other != game_id && old(self)@.games.contains_key(other)
                    ==> #[trigger] final(self)@.games[other] == old(self)@.games[other],
            final(self)@.games.contains_key(game_id) == old(self)@.games.contains_key(game_id),
            old(self)@.wf() ==> final(self)@.wf(),
    {
        let next = match self.games.get(&game_id) {
            Some(game) => match game.play(square1.as_str(), square2.as_str()) {
                Ok(next) => next,
                Err(e) => {
                    return Err(e);
                },
            },
            None => {
                return Err(MoveError::GameNotFound);
            },
        };
        self.games.insert(game_id, next);
        assert(self@.games =~= old(self)@.games.insert(game_id, next@));
        Ok(())
    }
}

impl Default for NearChess {
    /// A registry without games.
    fn default() -> (r: NearChess)
        ensures
            r@ == Registry::empty(),
            r@.wf(),
    {
        NearChess::new()
    }
}

} // verus!
