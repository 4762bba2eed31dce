//! What holds of every run of a registry, whatever is asked of it and in whatever order.

use vstd::prelude::*;
use crate::registry::Registry;

verus! {

/// A call to the registry.
pub enum Call {
    /// Start a game between two players.
    Start { player1: Seq<char>, player2: Seq<char> },
    /// Submit a move in a game.
    Move { game_id: u64, square1: Seq<char>, square2: Seq<char> },
}

/// How many of the calls start a game.
pub open spec fn starts_in(calls: Seq<Call>) -> nat
    decreases calls.len(),
{
    if calls.len() == 0 {
        0
    } else if calls.last() is Start {
        starts_in(calls.drop_last()) + 1
    } else {
        starts_in(calls.drop_last())
    }
}

impl Registry {
    /// The registry after one call.
    pub open spec fn after(self, call: Call) -> Registry {
        match call {
            Call::Start { player1, player2 } => self.started(player1, player2),
            Call::Move { game_id, square1, square2 } => self.moved(game_id, square1, square2),
        }
    }

    /// The registry after a run of calls, the first call first.
    pub open spec fn after_all(self, calls: Seq<Call>) -> Registry
        decreases calls.len(),
    {
        if calls.len() == 0 {
            self
        } else {
            self.after_all(calls.drop_last()).after(calls.last())
        }
    }

    /// The ids that a run of calls hands out, in the order of the calls that start a game.
    pub open spec fn ids_issued(self, calls: Seq<Call>) -> Seq<u64>
        decreases calls.len(),
    {
        if calls.len() == 0 {
            Seq::empty()
        } else if calls.last() is Start {
            self.ids_issued(calls.drop_last()).push(self.after_all(calls.drop_last()).next_id())
        } else {
            self.ids_issued(calls.drop_last())
        }
    }
}

/// A run of calls moves the counter on by one for every game it starts and hands out one id
/// for each of them; every id it hands out lies above the counter it began with and not
/// above the counter it ends with.
pub proof fn lemma_counter_follows_starts(registry: Registry, calls: Seq<Call>)
    requires
        registry.max_game_id + starts_in(calls) <= u64::MAX,
    ensures
        registry.after_all(calls).max_game_id == registry.max_game_id + starts_in(calls),
        registry.ids_issued(calls).len() == starts_in(calls),
        forall|i: int|
            0 <= i < registry.ids_issued(calls).len() ==> {
                let id = #[trigger] registry.ids_issued(calls)[i];
                registry.max_game_id < id <= registry.after_all(calls).max_game_id
            },
    decreases calls.len(),
{
    if calls.len() > 0 {
        lemma_counter_follows_starts(registry, calls.drop_last());
    }
}

/// Ids are handed out in strictly increasing order: of two games started in one run of
/// calls, with any moves in between, the later one has the greater id.
pub proof fn lemma_ids_strictly_increase(registry: Registry, calls: Seq<Call>, i: int, j: int)
    requires
        registry.max_game_id + starts_in(calls) <= u64::MAX,
        0 <= i < j < registry.ids_issued(calls).len(),
    ensures
        registry.max_game_id < registry.ids_issued(calls)[i] < registry.ids_issued(calls)[j],
    decreases calls.len(),
{
    lemma_counter_follows_starts(registry, calls);
    if calls.len() > 0 {
        let earlier = calls.drop_last();
        lemma_counter_follows_starts(registry, earlier);
        if calls.last() is Start && j == registry.ids_issued(earlier).len() {
        } else {
            lemma_ids_strictly_increase(registry, earlier, i, j);
        }
    }
}

/// No id is handed out twice.
pub proof fn lemma_ids_never_repeat(registry: Registry, calls: Seq<Call>, i: int, j: int)
    requires
        registry.max_game_id + starts_in(calls) <= u64::MAX,
        0 <= i < registry.ids_issued(calls).len(),
        0 <= j < registry.ids_issued(calls).len(),
        i != j,
    ensures
        registry.ids_issued(calls)[i] != registry.ids_issued(calls)[j],
{
    if i < j {
        lemma_ids_strictly_increase(registry, calls, i, j);
    } else {
        lemma_ids_strictly_increase(registry, calls, j, i);
    }
}

/// Whatever is stored after a run of calls has an id that was handed out, if that held
/// before the run; and the counter never goes back.
pub proof fn lemma_run_keeps_ids_handed_out(registry: Registry, calls: Seq<Call>)
    requires
        registry.ids_handed_out(),
        registry.max_game_id + starts_in(calls) <= u64::MAX,
    ensures
        registry.after_all(calls).ids_handed_out(),
        registry.max_game_id <= registry.after_all(calls).max_game_id,
    decreases calls.len(),
{
    lemma_counter_follows_starts(registry, calls);
    if calls.len() > 0 {
        lemma_run_keeps_ids_handed_out(registry, calls.drop_last());
        lemma_counter_follows_starts(registry, calls.drop_last());
    }
}

/// A move that is refused leaves the registry as it was.
pub proof fn lemma_refused_move_changes_nothing(
    registry: Registry,
    game_id: u64,
    square1: Seq<char>,
    square2: Seq<char>,
)
    requires
        registry.move_outcome(game_id, square1, square2) is Err,
    ensures
        registry.moved(game_id, square1, square2) == registry,
{
}

/// A move in one game leaves every other game as it was: stored with the same players and
/// the same position, or not stored.
pub proof fn lemma_move_leaves_other_games(
    registry: Registry,
    game_id: u64,
    square1: Seq<char>,
    square2: Seq<char>,
    other: u64,
)
    requires
        other != game_id,
    ensures
        registry.moved(game_id, square1, square2).games.contains_key(other)
            == registry.games.contains_key(other),
        registry.games.contains_key(other) ==> registry.moved(
            game_id,
            square1,
            square2,
        ).games[other] == registry.games[other],
{
}

} // verus!
