//! How games, rounds and turns begin.

use vstd::prelude::*;
use vstd::std_specs::iter::IteratorSpec;
use std::collections::HashMap;
use crate::player::{IDsize, PlayerState, PlayerView, Reset};
use crate::random::random_index;
use crate::state::{is_last_position, last_position, player_views, GameStage, GameState};

verus! {

/// Replacing one player replaces that player's view.
pub(crate) proof fn lemma_views_insert(
    players: Map<IDsize, PlayerState>,
    id: IDsize,
    player: PlayerState,
)
    ensures
        player_views(players.insert(id, player)) == player_views(players).insert(id, player@),
        player_views(players.remove(id).insert(id, player)) == player_views(players).insert(
            id,
            player@,
        ),
{
    assert(player_views(players.insert(id, player)) =~= player_views(players).insert(id, player@));
    assert(players.remove(id).insert(id, player) =~= players.insert(id, player));
}

/// The ids of all players, in the order in which the map is walked.
pub(crate) fn player_ids(players: &HashMap<IDsize, PlayerState>) -> (ids: Vec<IDsize>)
    ensures
        ids@.no_duplicates(),
        ids@.to_set() == players@.dom(),
        ids@.len() == players@.len(),
{
    let mut ids: Vec<IDsize> = Vec::new();
    for id in it: players.keys()
        invariant
            ids@ == it.seq().unref().take(it.index() as int),
    {
        ids.push(*id);
    }
    assert(ids@ =~= players.keys().remaining().unref());
    ids
}

/// Whether every player has placed exactly one card.
pub(crate) fn all_placed_one(players: &HashMap<IDsize, PlayerState>) -> (all: bool)
    ensures
        all == (forall|id: IDsize| #[trigger]
            players@.contains_key(id) ==> players@[id].placed@.len() == 1),
{
    for entry in it: players.iter()
        invariant
            forall|i: int| 0 <= i < it.index() ==> (#[trigger] it.seq()[i]).1.placed@.len() == 1,
    {
        if entry.1.placed.len() != 1 {
            assert(players@.contains_key(*entry.0) && players@[*entry.0] == *entry.1);
            return false;
        }
    }
    assert forall|id: IDsize| #[trigger] players@.contains_key(id) implies players@[id].placed@.len()
        == 1 by {
        assert(players.iter().remaining().contains((&id, &players@[id])));
    }
    true
}

/// Whether every player has passed.
pub(crate) fn all_passed(players: &HashMap<IDsize, PlayerState>) -> (all: bool)
    ensures
        all == (forall|id: IDsize| #[trigger] players@.contains_key(id) ==> players@[id].passed),
{
    for entry in it: players.iter()
        invariant
            forall|i: int| 0 <= i < it.index() ==> (#[trigger] it.seq()[i]).1.passed,
    {
        if !entry.1.passed {
            assert(players@.contains_key(*entry.0) && players@[*entry.0] == *entry.1);
            return false;
        }
    }
    assert forall|id: IDsize| #[trigger] players@.contains_key(id) implies players@[id].passed by {
        assert(players.iter().remaining().contains((&id, &players@[id])));
    }
    true
}

/// Clears every player's seat.
fn reset_players(players: &mut HashMap<IDsize, PlayerState>, reset: Reset)
    ensures
        player_views(final(players)@) == player_views(old(players)@).map_values(
            |player: PlayerView| player.reset(reset),
        ),
{
    let ghost before = player_views(players@);
    let ghost after = before.map_values(|player: PlayerView| player.reset(reset));
    let ids = player_ids(players);
    let mut i: usize = 0;
    while i < ids.len()
        invariant
            i <= ids@.len(),
            ids@.no_duplicates(),
            ids@.to_set() == before.dom(),
            after == before.map_values(|player: PlayerView| player.reset(reset)),
            players@.dom() == before.dom(),
            forall|j: int|
                0 <= j < i ==> player_views(players@)[#[trigger] ids@[j]] == after[ids@[j]],
            forall|j: int|
                i <= j < ids@.len() ==> player_views(players@)[#[trigger] ids@[j]]
                    == before[ids@[j]],
        decreases ids@.len() - i,
    {
        let id = ids[i];
        let ghost current = players@;
        assert(ids@.to_set().contains(ids@[i as int]));
        if let Some(mut player) = players.remove(&id) {
            player.reset(reset);
            players.insert(id, player);
            proof {
                lemma_views_insert(current, id, player);
                assert(players@.dom() =~= before.dom());
            }
        }
        i += 1;
    }
    proof {
        assert forall|id: IDsize| #[trigger] after.contains_key(id) implies player_views(
            players@,
        )[id] == after[id] by {
            assert(ids@.to_set().contains(id));
            let j = choose|j: int| 0 <= j < ids@.len() && ids@[j] == id;
            assert(player_views(players@)[ids@[j]] == after[ids@[j]]);
        }
        assert(player_views(players@) =~= after);
    }
}

/// Starts a game: seats the players in some order and lets one of them begin. Order and
/// beginner are left to chance.
pub fn start_game(state: &mut GameState)
    requires
        old(state)@.players.len() > 0,
    ensures
        final(state).unique_names == old(state).unique_names,
        old(state)@.is_seating(final(state)@.id_list),
        final(state)@.current_player_index < final(state)@.id_list.len(),
        final(state)@ == old(state)@.game_started(
            final(state)@.id_list,
            final(state)@.current_player_index,
        ),
{
    let player_list = player_ids(&state.players);
    proof {
        assert(state@.players.dom() =~= state.players@.dom());
    }
    let first = random_index(player_list.len());
    start_game_with(state, player_list, first);
}

/// Starts a game with the players seated in the order of `player_list`; the one at position
/// `first` begins.
pub fn start_game_with(state: &mut GameState, player_list: Vec<IDsize>, first: usize)
    ensures
        final(state).unique_names == old(state).unique_names,
        final(state)@ == old(state)@.game_started(player_list@, first as int),
{
    state.stage = GameStage::InitialCard;
    reset_players(&mut state.players, Reset::GameStart);
    state.current_player_index = first;
    state.id_list = player_list;
}

/// Hands the turn to the next player.
pub fn increment_turn(state: &mut GameState)
    requires
        old(state)@.players.len() > 0,
        old(state).current_player_index < usize::MAX,
    ensures
        final(state).unique_names == old(state).unique_names,
        final(state)@ == old(state)@.turn_incremented(),
{
    proof {
        assert(state@.players.dom() =~= state.players@.dom());
    }
    state.current_player_index = (state.current_player_index + 1) % state.players.len();
}

/// Starts the next round of a running game with the player after `flipper`.
pub fn start_next_round(state: &mut GameState, flipper: &IDsize)
    requires
        old(state)@.players.len() > 0,
        old(state)@.id_list.contains(*flipper),
    ensures
        final(state).unique_names == old(state).unique_names,
        final(state)@ == old(state)@.next_round(*flipper),
{
    let mut maybe_player_index: Option<usize> = None;
    let mut index: usize = 0;
    while index < state.id_list.len()
        invariant
            *state == *old(state),
            index <= state.id_list@.len(),
            match maybe_player_index {
                Some(found) => is_last_position(
                    state.id_list@.take(index as int),
                    *flipper,
                    found as int,
                ),
                None => !state.id_list@.take(index as int).contains(*flipper),
            },
        decreases state.id_list@.len() - index,
    {
        let ghost seen = state.id_list@.take(index as int);
        if state.id_list[index] == *flipper {
            maybe_player_index = Some(index);
        }
        index += 1;
        proof {
            let more = state.id_list@.take(index as int);
            assert(more =~= seen.push(state.id_list@[index - 1]));
            if maybe_player_index is None && more.contains(*flipper) {
                let k = choose|k: int| 0 <= k < more.len() && more[k] == *flipper;
                assert(seen[k] == *flipper);
            }
        }
    }
    assert(state.id_list@.take(index as int) =~= state.id_list@);
    if let Some(player_index) = maybe_player_index {
        assert(last_position(state.id_list@, *flipper) == player_index) by {
            assert(is_last_position(state.id_list@, *flipper, player_index as int));
            let chosen = last_position(state.id_list@, *flipper);
            assert(is_last_position(state.id_list@, *flipper, chosen));
            assert(state.id_list@[chosen] == *flipper);
            assert(state.id_list@[player_index as int] == *flipper);
        }
        state.current_player_index = player_index;
    }
    increment_turn(state);
    reset_players(&mut state.players, Reset::NextRound);
    state.stage = GameStage::InitialCard;
}

/// Ends a game that `id` has won.
pub fn start_next_game(state: &mut GameState, id: IDsize)
    ensures
        final(state).unique_names == old(state).unique_names,
        final(state)@ == old(state)@.game_won(id),
{
    reset_players(&mut state.players, Reset::GameWon);
    state.stage = GameStage::Lobby { winner: Some(id) };
}

} // verus!
