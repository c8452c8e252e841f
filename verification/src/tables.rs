//! What the changes to a table come to, field by field, and how tables, seats, names and
//! responses are read.

use vstd::prelude::*;
use crate::laws::lemma_last_position;
use crate::message::{ClientMessage, ClientResponse};
use crate::names::NameSet;
use crate::player::{IDsize, PlayerState, PlayerView, Reset};
use crate::rules::can_handle;
use crate::state::{is_last_position, last_position, GameStage, GameState, GameView};

verus! {

/// An empty lobby has no names, no players, no winner, no host and no seats.
pub proof fn law_an_empty_lobby(name: Seq<char>, id: IDsize)
    ensures
        GameView::initial().wf(),
        !GameView::initial().unique_names.contains(name),
        !GameView::initial().players.contains_key(id),
        GameView::initial().stage is Lobby,
        GameView::initial().stage->winner is None,
        GameView::initial().host_id is None,
        GameView::initial().id_list.len() == 0,
        GameView::initial().current_player_index == 0,
{
}

/// A table is well formed exactly if its players are finitely many, its host is one of them,
/// only a table without players lacks a host, and during a game everyone has exactly one seat,
/// the turn is at a seat, and nobody has two points.
pub proof fn law_well_formed_tables(s: GameView)
    ensures
        s.wf() <==> {
            &&& s.players.dom().finite()
            &&& s.host_id matches Some(host) ==> s.players.contains_key(host)
            &&& s.host_id is None ==> (forall|id: IDsize| !#[trigger] s.players.contains_key(id))
            &&& !(s.stage is Lobby) ==> {
                &&& forall|i: int, j: int|
                    0 <= i < s.id_list.len() && 0 <= j < s.id_list.len() && i != j
                        ==> s.id_list[i] != s.id_list[j]
                &&& forall|id: IDsize|
                    s.id_list.contains(id) == #[trigger] s.players.contains_key(id)
                &&& 0 <= s.current_player_index < s.id_list.len()
                &&& forall|id: IDsize| #[trigger]
                    s.players.contains_key(id) ==> s.players[id].points < 2
            }
        },
{
    law_seatings(s, s.id_list);
    if forall|id: IDsize| !#[trigger] s.players.contains_key(id) {
        assert(s.players.dom() =~= Set::<IDsize>::empty());
    }
    if s.players.dom() == Set::<IDsize>::empty() {
        assert forall|id: IDsize| !#[trigger] s.players.contains_key(id) by {
            assert(!s.players.dom().contains(id));
        }
    }
}

/// A seating holds every player once, and nobody else.
pub proof fn law_seatings(s: GameView, order: Seq<IDsize>)
    ensures
        s.is_seating(order) <==> {
            &&& forall|i: int, j: int|
                0 <= i < order.len() && 0 <= j < order.len() && i != j ==> order[i] != order[j]
            &&& forall|id: IDsize| order.contains(id) == #[trigger] s.players.contains_key(id)
        },
{
    assert(forall|id: IDsize| #[trigger] order.to_set().contains(id) == order.contains(id));
    if forall|id: IDsize| order.contains(id) == #[trigger] s.players.contains_key(id) {
        assert forall|id: IDsize| #[trigger]
            order.to_set().contains(id) == s.players.dom().contains(id) by {
            assert(order.contains(id) == s.players.contains_key(id));
        }
        assert(order.to_set() =~= s.players.dom());
    }
    if s.is_seating(order) {
        assert forall|id: IDsize| order.contains(id) == #[trigger] s.players.contains_key(id) by {
            assert(order.to_set().contains(id) == s.players.dom().contains(id));
        }
    }
}

/// Which messages a table can handle: all but a quit by someone who is no player, a look at a
/// seating that names someone who is none, and a pickup that nobody could settle.
pub proof fn law_what_can_be_handled(
    s: GameView,
    maybe_id: Option<IDsize>,
    message: Option<ClientMessage>,
)
    ensures
        maybe_id is None || message is None ==> can_handle(s, maybe_id, message),
        maybe_id matches Some(id) ==> message matches Some(asked) ==> {
            &&& !(asked is Quit || asked is GetState || asked is Pickup) ==> can_handle(
                s,
                maybe_id,
                message,
            )
            &&& asked is Quit ==> (can_handle(s, maybe_id, message) <==> (s.stage is Lobby
                ==> s.players.contains_key(id)))
            &&& asked is GetState ==> (can_handle(s, maybe_id, message) <==> (
            s.players.contains_key(id) ==> (forall|i: int|
                0 <= i < s.id_list.len() ==> s.players.contains_key(#[trigger] s.id_list[i]))))
            &&& asked matches ClientMessage::Pickup { player_index } ==> !(s.stage is Flipping)
                ==> can_handle(s, maybe_id, message)
            &&& asked matches ClientMessage::Pickup { player_index } ==> player_index
                > s.id_list.len() ==> can_handle(s, maybe_id, message)
            &&& asked matches ClientMessage::Pickup { player_index } ==> player_index
                < s.id_list.len() && s.players[s.id_list[player_index as int]].placed.len() == 0
                ==> can_handle(s, maybe_id, message)
            &&& asked matches ClientMessage::Pickup { player_index } ==> player_index
                < s.id_list.len() && s.players.contains_key(id) && s.players[id].owned.len() > 0
                && (s.stage is Flipping ==> s.players.contains_key(s.stage->flipper))
                ==> can_handle(s, maybe_id, message)
            &&& asked matches ClientMessage::Pickup { player_index } ==> player_index
                < s.id_list.len() && s.players.contains_key(id) && s.stage is Flipping
                && s.players[s.id_list[player_index as int]].placed.last() != 0 && (
            s.players.contains_key(s.stage->flipper) || s.players[id].points == 1 || (
            s.stage->flipped.len() + 1) % 256 != s.stage->required) ==> can_handle(
                s,
                maybe_id,
                message,
            )
        },
{
}

/// A new player has the given name, the cards 0 to 3, and nothing else.
pub proof fn law_new_players(name: Seq<char>)
    ensures
        PlayerView::joined(name).name == name,
        PlayerView::joined(name).owned.len() == 4,
        forall|i: int| 0 <= i < 4 ==> #[trigger] PlayerView::joined(name).owned[i] == i,
        PlayerView::joined(name).placed.len() == 0,
        PlayerView::joined(name).bid is None,
        PlayerView::joined(name).points == 0,
        !PlayerView::joined(name).passed,
{
}

/// Every reset keeps the name and takes stack and bid. The points go only when a game starts,
/// the pass only when it does not, and the hand is filled up only when a game has been won.
pub proof fn law_resets(player: PlayerView, reset: Reset)
    ensures
        player.reset(reset).name == player.name,
        player.reset(reset).placed.len() == 0,
        player.reset(reset).bid is None,
        player.reset(reset).points == (if reset is GameStart {
            0
        } else {
            player.points
        }),
        player.reset(reset).passed == (reset is GameStart && player.passed),
        !(reset is GameWon) ==> player.reset(reset).owned == player.owned,
        reset is GameWon ==> player.reset(reset).owned.len() == 4 && (forall|i: int|
            0 <= i < 4 ==> #[trigger] player.reset(reset).owned[i] == i),
{
}

/// A player who joins as `id` changes that seat, the names in use, and, if nobody else is at the
/// table, the host.
pub proof fn law_a_player_joins(
    s: GameView,
    id: IDsize,
    name: Seq<char>,
    other: IDsize,
    other_name: Seq<char>,
)
    requires
        s.players.dom().finite(),
    ensures
        s.joined(id, name).players.contains_key(id),
        s.joined(id, name).players[id] == PlayerView::joined(name),
        other != id ==> s.joined(id, name).players.contains_key(other) == s.players.contains_key(
            other,
        ) && s.joined(id, name).players[other] == s.players[other],
        s.joined(id, name).unique_names.contains(other_name) == (s.unique_names.contains(
            other_name,
        ) || other_name == name),
        (forall|k: IDsize| #[trigger] s.players.contains_key(k) ==> k == id) ==> s.joined(
            id,
            name,
        ).host_id == Some(id),
        other != id && s.players.contains_key(other) ==> s.joined(id, name).host_id == s.host_id,
        s.joined(id, name).stage == s.stage,
        s.joined(id, name).id_list == s.id_list,
        s.joined(id, name).current_player_index == s.current_player_index,
{
    let players = s.joined(id, name).players;
    assert(players.dom() =~= s.players.dom().insert(id));
    if forall|k: IDsize| #[trigger] s.players.contains_key(k) ==> k == id {
        assert forall|k: IDsize| #[trigger] players.dom().contains(k) implies set![id].contains(
            k,
        ) by {
            assert(s.players.dom().contains(k) ==> s.players.contains_key(k));
        }
        assert(players.dom() =~= set![id]);
    }
    if other != id && s.players.contains_key(other) {
        assert(players.dom().remove(id).contains(other));
        if players.len() == 1 {
            assert(players.dom().remove(id) =~= Set::<IDsize>::empty());
        }
    }
}

/// A started game has the given seating and beginner; every player keeps name, hand and pass and
/// has no stack, no bid and no points.
pub proof fn law_a_game_starts(s: GameView, order: Seq<IDsize>, first: int, player: IDsize)
    ensures
        ({
            let t = s.game_started(order, first);
            &&& t.stage is InitialCard
            &&& t.id_list == order
            &&& t.current_player_index == first
            &&& t.unique_names == s.unique_names
            &&& t.host_id == s.host_id
            &&& t.players.contains_key(player) == s.players.contains_key(player)
            &&& s.players.contains_key(player) ==> {
                &&& t.players[player].name == s.players[player].name
                &&& t.players[player].owned == s.players[player].owned
                &&& t.players[player].passed == s.players[player].passed
                &&& t.players[player].placed.len() == 0
                &&& t.players[player].bid is None
                &&& t.players[player].points == 0
            }
        }),
{
}

/// Handing the turn on moves it by one in a circle as long as there are players, and changes
/// nothing else.
pub proof fn law_the_turn_is_handed_on(s: GameView)
    requires
        s.players.len() > 0,
    ensures
        ({
            let t = s.turn_incremented();
            &&& t.current_player_index == (s.current_player_index + 1) % (s.players.len() as int)
            &&& t.players == s.players
            &&& t.unique_names == s.unique_names
            &&& t.stage == s.stage
            &&& t.host_id == s.host_id
            &&& t.id_list == s.id_list
        }),
{
}

/// The next round puts the turn one past the flipper's last seat, in a circle as long as there
/// are players. Every player keeps name, hand and points and has no stack, no bid and no pass.
pub proof fn law_the_next_round_starts(s: GameView, flipper_seat: int, player: IDsize)
    requires
        s.players.len() > 0,
        0 <= flipper_seat < s.id_list.len(),
        forall|j: int|
            flipper_seat < j < s.id_list.len() ==> s.id_list[j] != s.id_list[flipper_seat],
    ensures
        ({
            let t = s.next_round(s.id_list[flipper_seat]);
            &&& t.stage is InitialCard
            &&& t.current_player_index == (flipper_seat + 1) % (s.players.len() as int)
            &&& t.unique_names == s.unique_names
            &&& t.host_id == s.host_id
            &&& t.id_list == s.id_list
            &&& t.players.contains_key(player) == s.players.contains_key(player)
            &&& s.players.contains_key(player) ==> {
                &&& t.players[player].name == s.players[player].name
                &&& t.players[player].owned == s.players[player].owned
                &&& t.players[player].points == s.players[player].points
                &&& t.players[player].placed.len() == 0
                &&& t.players[player].bid is None
                &&& !t.players[player].passed
            }
        }),
{
    let flipper = s.id_list[flipper_seat];
    lemma_last_position(s.id_list, flipper);
    let found = last_position(s.id_list, flipper);
    assert(is_last_position(s.id_list, flipper, found));
    assert(s.id_list[found] == s.id_list[flipper_seat]);
}

/// A won game leaves the winner's name in the lobby. Every player keeps name and points and has
/// a full hand, no stack, no bid and no pass. Seating and turn stay.
pub proof fn law_a_game_is_won(s: GameView, winner: IDsize, player: IDsize)
    ensures
        ({
            let t = s.game_won(winner);
            &&& t.stage is Lobby
            &&& t.stage->winner == Some(winner)
            &&& t.current_player_index == s.current_player_index
            &&& t.unique_names == s.unique_names
            &&& t.host_id == s.host_id
            &&& t.id_list == s.id_list
            &&& t.players.contains_key(player) == s.players.contains_key(player)
            &&& s.players.contains_key(player) ==> {
                &&& t.players[player].name == s.players[player].name
                &&& t.players[player].points == s.players[player].points
                &&& t.players[player].owned.len() == 4
                &&& forall|i: int| 0 <= i < 4 ==> #[trigger] t.players[player].owned[i] == i
                &&& t.players[player].placed.len() == 0
                &&& t.players[player].bid is None
                &&& !t.players[player].passed
            }
        }),
{
}

/// Losing a card takes just that card out of the hand, the others keep their order, and nothing
/// else changes.
pub proof fn law_a_card_is_lost(s: GameView, id: IDsize, lost: int, other: IDsize)
    requires
        s.players.contains_key(id),
        0 <= lost < s.players[id].owned.len(),
    ensures
        ({
            let t = s.lost_card(id, lost);
            let before = s.players[id].owned;
            let after = t.players[id].owned;
            &&& after.len() + 1 == before.len()
            &&& forall|i: int| 0 <= i < lost ==> #[trigger] after[i] == before[i]
            &&& forall|i: int| lost <= i < after.len() ==> #[trigger] after[i] == before[i + 1]
            &&& t.players[id].name == s.players[id].name
            &&& t.players[id].placed == s.players[id].placed
            &&& t.players[id].bid == s.players[id].bid
            &&& t.players[id].points == s.players[id].points
            &&& t.players[id].passed == s.players[id].passed
            &&& t.players.contains_key(other) == s.players.contains_key(other)
            &&& other != id ==> t.players[other] == s.players[other]
            &&& t.stage == s.stage
            &&& t.unique_names == s.unique_names
            &&& t.host_id == s.host_id
            &&& t.id_list == s.id_list
            &&& t.current_player_index == s.current_player_index
        }),
{
}

/// A name set holds exactly the names stored in it, and is well formed exactly if no two places
/// hold the same.
pub proof fn law_name_sets(set: NameSet, name: Seq<char>)
    ensures
        set@.contains(name) <==> exists|i: int|
            0 <= i < set.entries@.len() && (#[trigger] set.entries@[i])@ == name,
        set.wf() <==> (forall|i: int, j: int|
            0 <= i < set.entries@.len() && 0 <= j < set.entries@.len() && i != j
                ==> set.entries@[i]@ != set.entries@[j]@),
{
    let texts = crate::names::name_seq(set.entries@);
    assert(texts.len() == set.entries@.len());
    assert(forall|i: int| 0 <= i < texts.len() ==> texts[i] == (#[trigger] set.entries@[i])@);
    if set@.contains(name) {
        let i = choose|i: int| 0 <= i < texts.len() && texts[i] == name;
        assert(set.entries@[i]@ == name);
    }
    if exists|i: int| 0 <= i < set.entries@.len() && (#[trigger] set.entries@[i])@ == name {
        let i = choose|i: int|
            0 <= i < set.entries@.len() && (#[trigger] set.entries@[i])@ == name;
        assert(texts[i] == name);
    }
    if set.wf() {
        assert forall|i: int, j: int|
            0 <= i < set.entries@.len() && 0 <= j < set.entries@.len() && i
                != j implies set.entries@[i]@ != set.entries@[j]@ by {
            assert(texts[i] != texts[j]);
        }
    }
}

/// A seat is read field by field.
pub proof fn law_seats_are_read_as_they_are(player: PlayerState)
    ensures
        player@.name == player.name@,
        player@.owned == player.owned@,
        player@.placed == player.placed@,
        player@.bid == player.bid,
        player@.points == player.points,
        player@.passed == player.passed,
{
}

/// A stage is read as the stage of the same kind with the same content.
pub proof fn law_stages_are_read_as_they_are(stage: GameStage)
    ensures
        stage matches GameStage::Lobby { winner } ==> stage@ is Lobby && stage@->winner == winner,
        stage is InitialCard ==> stage@ is InitialCard,
        stage is Turns ==> stage@ is Turns,
        stage matches GameStage::Bidding { highest_bidder, highest_bid } ==> stage@ is Bidding
            && stage@->highest_bidder == highest_bidder && stage@->highest_bid == highest_bid,
        stage matches GameStage::Flipping { flipper, required, flipped } ==> stage@ is Flipping
            && stage@->flipper == flipper && stage@->required == required && stage@->flipped
            == flipped@,
{
}

/// A table is read field by field, and its players under their ids.
pub proof fn law_tables_are_read_as_they_are(state: GameState, id: IDsize)
    ensures
        state@.unique_names == state.unique_names@,
        state@.players.contains_key(id) == state.players@.contains_key(id),
        state.players@.contains_key(id) ==> state@.players[id] == state.players@[id]@,
        state@.stage == state.stage@,
        state@.host_id == state.host_id,
        state@.id_list == state.id_list@,
        state@.current_player_index == state.current_player_index,
        state.wf() <==> state.unique_names.wf() && state@.wf(),
{
}

/// A response is read as the response of the same kind with the same content.
pub proof fn law_responses_are_read_as_they_are(response: ClientResponse<'_>)
    ensures
        response is InvalidRequest <==> response@ is InvalidRequest,
        response is InvalidJSON <==> response@ is InvalidJSON,
        response is NotJoined <==> response@ is NotJoined,
        response is ValidJoin <==> response@ is ValidJoin,
        response is ValidQuit <==> response@ is ValidQuit,
        response is NameTaken <==> response@ is NameTaken,
        response is ValidRejoin <==> response@ is ValidRejoin,
        response is State <==> response@ is State,
        response is GameStarted <==> response@ is GameStarted,
        response is ValidMove <==> response@ is ValidMove,
        response is RedCard <==> response@ is RedCard,
        response is BlackCard <==> response@ is BlackCard,
        response is WonGame <==> response@ is WonGame,
        response is Debug <==> response@ is Debug,
        response matches ClientResponse::ValidJoin { id } ==> response@->ValidJoin_id == id,
        response matches ClientResponse::ValidRejoin { id, is_host } ==> response@->ValidRejoin_id
            == id && response@->is_host == is_host,
        response matches ClientResponse::State {
            player_state,
            game_stage,
            current_player_index,
            players_num_cards,
        } ==> response@->player_state == player_state@ && response@->game_stage == game_stage@
            && response@->current_player_index == current_player_index
            && response@->players_num_cards == players_num_cards@,
        response matches ClientResponse::Debug(state) ==> response@->Debug_0 == state@,
{
}

} // verus!
