//! What each message comes to, seat by seat: when it is accepted, what its sender is told, what
//! changes, and that nothing else does.

use vstd::prelude::*;
use crate::laws::{lemma_last_position, lemma_seats};
use crate::message::{ClientMessage, ResponseView};
use crate::player::{Bidsize, Cardsize, IDsize};
use crate::rules::{can_handle, transition};
use crate::state::GameView;

verus! {

/// Joining, quitting and starting a game are refused during a game; so is every move outside
/// its stage: placing a card but for the first cards and the turns, bidding but in the turns
/// and the bidding, passing but in the bidding, and picking up but in the flipping.
pub proof fn law_messages_out_of_stage_are_refused(
    s: GameView,
    maybe_id: Option<IDsize>,
    message: ClientMessage,
    response: ResponseView,
    t: GameView,
)
    requires
        transition(s, maybe_id, Some(message), response, t),
        maybe_id is Some || message is Join,
        ({
            ||| message is Join && !(s.stage is Lobby)
            ||| message is Quit && !(s.stage is Lobby)
            ||| message is StartGame && !(s.stage is Lobby)
            ||| message is PlaceCard && !(s.stage is InitialCard || s.stage is Turns)
            ||| message is Bid && !(s.stage is Turns || s.stage is Bidding)
            ||| message is Pass && !(s.stage is Bidding)
            ||| message is Pickup && !(s.stage is Flipping)
        }),
    ensures
        response is InvalidRequest,
        t == s,
{
}

/// Someone who joins the lobby under a free name gets the number of names in use as id, and sits
/// there with the cards 0 to 3, an empty stack, no bid, no points and no pass. The name is in
/// use from then on. Nobody else's seat changes.
pub proof fn law_joining(
    s: GameView,
    maybe_id: Option<IDsize>,
    name: String,
    response: ResponseView,
    t: GameView,
    other: IDsize,
    other_name: Seq<char>,
)
    requires
        s.stage is Lobby,
        transition(s, maybe_id, Some(ClientMessage::Join { name }), response, t),
    ensures
        s.unique_names.contains(name@) ==> response is NameTaken && t == s,
        !s.unique_names.contains(name@) ==> {
            &&& response is ValidJoin
            &&& response->ValidJoin_id == s.unique_names.len()
            &&& t.players.contains_key(response->ValidJoin_id)
            &&& t.players[response->ValidJoin_id].name == name@
            &&& t.players[response->ValidJoin_id].owned.len() == 4
            &&& forall|i: int|
                0 <= i < 4 ==> #[trigger] t.players[response->ValidJoin_id].owned[i] == i
            &&& t.players[response->ValidJoin_id].placed.len() == 0
            &&& t.players[response->ValidJoin_id].bid is None
            &&& t.players[response->ValidJoin_id].points == 0
            &&& !t.players[response->ValidJoin_id].passed
            &&& other != response->ValidJoin_id ==> {
                &&& t.players.contains_key(other) == s.players.contains_key(other)
                &&& t.players[other] == s.players[other]
            }
            &&& t.unique_names.contains(other_name) == (s.unique_names.contains(other_name)
                || other_name == name@)
            &&& t.stage == s.stage
            &&& t.id_list == s.id_list
            &&& t.current_player_index == s.current_player_index
        },
{
}

/// A player is recognised by the id, whoever sends it, and told whether it is the host's;
/// anyone else is refused.
pub proof fn law_rejoining(
    s: GameView,
    maybe_id: Option<IDsize>,
    id: IDsize,
    response: ResponseView,
    t: GameView,
)
    requires
        transition(s, maybe_id, Some(ClientMessage::Rejoin { id }), response, t),
    ensures
        t == s,
        response is ValidRejoin <==> s.players.contains_key(id),
        response is ValidRejoin ==> response->ValidRejoin_id == id && response->is_host == (
        s.host_id == Some(id)),
        response is InvalidRequest <==> !s.players.contains_key(id),
{
}

/// A player who quits the lobby takes the own seat and name away and nothing else. Whoever is
/// host afterwards is one of the players left, and only a host who quits is replaced.
pub proof fn law_quitting(
    s: GameView,
    id: IDsize,
    response: ResponseView,
    t: GameView,
    other: IDsize,
    name: Seq<char>,
)
    requires
        s.wf(),
        s.stage is Lobby,
        s.players.contains_key(id),
        transition(s, Some(id), Some(ClientMessage::Quit), response, t),
    ensures
        response is ValidQuit,
        !t.players.contains_key(id),
        other != id ==> t.players.contains_key(other) == s.players.contains_key(other)
            && t.players[other] == s.players[other],
        t.unique_names.contains(name) == (s.unique_names.contains(name) && name
            != s.players[id].name),
        s.host_id != Some(id) ==> t.host_id == s.host_id,
        t.host_id matches Some(host) ==> host != id && s.players.contains_key(host),
        t.host_id is None && s.players.contains_key(other) ==> other == id,
        t.stage == s.stage,
        t.id_list == s.id_list,
        t.current_player_index == s.current_player_index,
{
    if s.host_id is None {
        assert(s.players.dom().contains(id));
    }
    if t.host_id is None && s.players.contains_key(other) {
        assert(s.players.dom().contains(other));
    }
}

/// A player who looks at the table is shown the own seat, the stage, whose turn it is, and for
/// every seat the height of its stack, as far as one byte holds it. Others are refused.
pub proof fn law_looking(s: GameView, id: IDsize, response: ResponseView, t: GameView)
    requires
        transition(s, Some(id), Some(ClientMessage::GetState), response, t),
    ensures
        t == s,
        response is State <==> s.players.contains_key(id),
        response is InvalidRequest <==> !s.players.contains_key(id),
        response is State ==> {
            &&& response->player_state == s.players[id]
            &&& response->game_stage == s.stage
            &&& response->current_player_index == s.current_player_index
            &&& response->players_num_cards.len() == s.id_list.len()
            &&& forall|seat: int|
                0 <= seat < s.id_list.len() ==> #[trigger] response->players_num_cards[seat]
                    == s.players[s.id_list[seat]].placed.len() % 256
        },
{
}

/// The seat that a player is shown as having the turn is the one whose player alone can add a
/// card or open the bidding next.
pub proof fn law_the_shown_turn_is_the_turn(
    s: GameView,
    viewer: IDsize,
    shown: ResponseView,
    t: GameView,
    id: IDsize,
    card: Cardsize,
    placing: ResponseView,
    u: GameView,
    bid: Bidsize,
    bidding: ResponseView,
    v: GameView,
)
    requires
        s.wf(),
        s.stage is Turns,
        s.players.contains_key(viewer),
        card <= 3,
        transition(s, Some(viewer), Some(ClientMessage::GetState), shown, t),
        transition(t, Some(id), Some(ClientMessage::PlaceCard { card }), placing, u),
        transition(t, Some(id), Some(ClientMessage::Bid { bid }), bidding, v),
    ensures
        0 <= shown->current_player_index < s.id_list.len(),
        placing is ValidMove <==> id == s.id_list[shown->current_player_index],
        bidding is ValidMove <==> id == s.id_list[shown->current_player_index],
{
}

/// When the host starts a game, every player keeps name, hand and pass, and loses stack, bid and
/// points. Everyone gets one seat, and the turn is at one of the seats. The names in use and the
/// host do not change. Nobody else can start one.
pub proof fn law_starting_a_game(
    s: GameView,
    id: IDsize,
    response: ResponseView,
    t: GameView,
    player: IDsize,
)
    requires
        s.wf(),
        s.stage is Lobby,
        transition(s, Some(id), Some(ClientMessage::StartGame), response, t),
    ensures
        s.host_id != Some(id) ==> response is InvalidRequest && t == s,
        s.host_id == Some(id) ==> {
            &&& response is GameStarted
            &&& t.stage is InitialCard
            &&& t.players.contains_key(player) == s.players.contains_key(player)
            &&& s.players.contains_key(player) ==> {
                &&& t.players[player].name == s.players[player].name
                &&& t.players[player].owned == s.players[player].owned
                &&& t.players[player].passed == s.players[player].passed
                &&& t.players[player].placed.len() == 0
                &&& t.players[player].bid is None
                &&& t.players[player].points == 0
            }
            &&& t.id_list.contains(player) == s.players.contains_key(player)
            &&& forall|i: int, j: int|
                0 <= i < t.id_list.len() && 0 <= j < t.id_list.len() && i != j
                    ==> t.id_list[i] != t.id_list[j]
            &&& 0 <= t.current_player_index < t.id_list.len()
            &&& t.unique_names == s.unique_names
            &&& t.host_id == s.host_id
        },
{
    if s.host_id == Some(id) {
        assert(t.id_list.to_set().contains(player) == t.id_list.contains(player));
        assert(s.players.dom().contains(player) == s.players.contains_key(player));
    }
}

/// A first card is accepted exactly from a player with no card down, and if the card exists. It
/// is then that player's whole stack. The turns begin with the card after which everyone has
/// one down.
pub proof fn law_placing_a_first_card(
    s: GameView,
    id: IDsize,
    card: Cardsize,
    response: ResponseView,
    t: GameView,
    other: IDsize,
)
    requires
        s.stage is InitialCard,
        transition(s, Some(id), Some(ClientMessage::PlaceCard { card }), response, t),
    ensures
        response is ValidMove <==> card <= 3 && s.players.contains_key(id)
            && s.players[id].placed.len() == 0,
        !(response is ValidMove) ==> response is InvalidRequest && t == s,
        response is ValidMove ==> {
            &&& t.players[id].placed.len() == 1
            &&& t.players[id].placed[0] == card
            &&& t.players[id].name == s.players[id].name
            &&& t.players[id].owned == s.players[id].owned
            &&& t.players[id].bid == s.players[id].bid
            &&& t.players[id].points == s.players[id].points
            &&& t.players[id].passed == s.players[id].passed
            &&& t.players.contains_key(other) == s.players.contains_key(other)
            &&& other != id ==> t.players[other] == s.players[other]
            &&& t.stage is Turns || t.stage is InitialCard
            &&& t.stage is Turns <==> (forall|k: IDsize| #[trigger]
                t.players.contains_key(k) ==> t.players[k].placed.len() == 1)
            &&& t.unique_names == s.unique_names
            &&& t.host_id == s.host_id
            &&& t.id_list == s.id_list
            &&& t.current_player_index == s.current_player_index
        },
{
}

/// In the turns a card is accepted exactly from the player whose turn it is, and if the card
/// exists. It goes on top of that player's stack, and the turn goes to the next seat, from the
/// last to the first.
pub proof fn law_adding_a_card(
    s: GameView,
    id: IDsize,
    card: Cardsize,
    response: ResponseView,
    t: GameView,
    other: IDsize,
)
    requires
        s.wf(),
        s.stage is Turns,
        transition(s, Some(id), Some(ClientMessage::PlaceCard { card }), response, t),
    ensures
        response is ValidMove <==> card <= 3 && id == s.id_list[s.current_player_index],
        !(response is ValidMove) ==> response is InvalidRequest && t == s,
        response is ValidMove ==> {
            &&& t.players[id].placed.len() == s.players[id].placed.len() + 1
            &&& t.players[id].placed.last() == card
            &&& t.players[id].placed.drop_last() == s.players[id].placed
            &&& t.players[id].name == s.players[id].name
            &&& t.players[id].owned == s.players[id].owned
            &&& t.players[id].bid == s.players[id].bid
            &&& t.players[id].points == s.players[id].points
            &&& t.players[id].passed == s.players[id].passed
            &&& t.players.contains_key(other) == s.players.contains_key(other)
            &&& other != id ==> t.players[other] == s.players[other]
            &&& t.stage is Turns
            &&& s.current_player_index + 1 < s.id_list.len() ==> t.current_player_index
                == s.current_player_index + 1
            &&& s.current_player_index + 1 == s.id_list.len() ==> t.current_player_index == 0
            &&& t.unique_names == s.unique_names
            &&& t.host_id == s.host_id
            &&& t.id_list == s.id_list
        },
{
    lemma_seats(s);
    if response is ValidMove {
        let n = s.id_list.len();
        assert(s.players.contains_key(s.id_list[s.current_player_index]));
        assert(t.players.dom() =~= s.players.dom());
        assert(t.players[id].placed.drop_last() =~= s.players[id].placed);
        if s.current_player_index + 1 < n {
            vstd::arithmetic::div_mod::lemma_small_mod((s.current_player_index + 1) as nat, n);
        } else {
            vstd::arithmetic::div_mod::lemma_mod_self_0(n as int);
        }
    }
}

/// The player whose turn it is, and nobody else, opens the bidding, with any bid. The bid stands
/// as it was made, under the bidder's id, and nothing else changes.
pub proof fn law_opening_the_bidding(
    s: GameView,
    id: IDsize,
    bid: Bidsize,
    response: ResponseView,
    t: GameView,
)
    requires
        s.stage is Turns,
        transition(s, Some(id), Some(ClientMessage::Bid { bid }), response, t),
    ensures
        response is ValidMove <==> id == s.id_list[s.current_player_index],
        !(response is ValidMove) ==> response is InvalidRequest && t == s,
        response is ValidMove ==> {
            &&& t.stage is Bidding
            &&& t.stage->highest_bidder == id
            &&& t.stage->highest_bid == bid
            &&& t.players == s.players
            &&& t.unique_names == s.unique_names
            &&& t.host_id == s.host_id
            &&& t.id_list == s.id_list
            &&& t.current_player_index == s.current_player_index
        },
{
}

/// In the bidding a bid is accepted exactly if it is higher than the highest. It then stands as
/// it was made, under the bidder's id, and nothing else changes.
pub proof fn law_raising_the_bid(
    s: GameView,
    id: IDsize,
    bid: Bidsize,
    response: ResponseView,
    t: GameView,
)
    requires
        s.stage is Bidding,
        transition(s, Some(id), Some(ClientMessage::Bid { bid }), response, t),
    ensures
        response is ValidMove <==> bid > s.stage->highest_bid,
        !(response is ValidMove) ==> response is InvalidRequest && t == s,
        response is ValidMove ==> {
            &&& t.stage is Bidding
            &&& t.stage->highest_bidder == id
            &&& t.stage->highest_bid == bid
            &&& t.players == s.players
            &&& t.unique_names == s.unique_names
            &&& t.host_id == s.host_id
            &&& t.id_list == s.id_list
            &&& t.current_player_index == s.current_player_index
        },
{
}

/// A pass is accepted from every player, and marks that player's seat only. The pass after which
/// everyone has passed makes the highest bidder flip as many cards as were bid, with none
/// flipped yet; before that the bid stands.
pub proof fn law_passing(
    s: GameView,
    id: IDsize,
    response: ResponseView,
    t: GameView,
    other: IDsize,
)
    requires
        s.stage is Bidding,
        transition(s, Some(id), Some(ClientMessage::Pass), response, t),
    ensures
        response is ValidMove <==> s.players.contains_key(id),
        !(response is ValidMove) ==> response is InvalidRequest && t == s,
        response is ValidMove ==> {
            &&& t.players[id].passed
            &&& t.players[id].name == s.players[id].name
            &&& t.players[id].owned == s.players[id].owned
            &&& t.players[id].placed == s.players[id].placed
            &&& t.players[id].bid == s.players[id].bid
            &&& t.players[id].points == s.players[id].points
            &&& t.players.contains_key(other) == s.players.contains_key(other)
            &&& other != id ==> t.players[other] == s.players[other]
            &&& t.stage is Flipping <==> (forall|k: IDsize| #[trigger]
                t.players.contains_key(k) ==> t.players[k].passed)
            &&& t.stage is Flipping ==> t.stage->flipper == s.stage->highest_bidder
                && t.stage->required == s.stage->highest_bid && t.stage->flipped.len() == 0
            &&& !(t.stage is Flipping) ==> t.stage == s.stage
            &&& t.unique_names == s.unique_names
            &&& t.host_id == s.host_id
            &&& t.id_list == s.id_list
            &&& t.current_player_index == s.current_player_index
        },
{
}

/// A pickup is refused exactly where there is no card to turn over. A red card on top is always
/// told as such, and no other card is.
pub proof fn law_pickups_are_answered(
    s: GameView,
    id: IDsize,
    player_index: usize,
    response: ResponseView,
    t: GameView,
)
    requires
        s.stage is Flipping,
        transition(s, Some(id), Some(ClientMessage::Pickup { player_index }), response, t),
    ensures
        response is InvalidRequest <==> player_index >= s.id_list.len()
            || s.players[s.id_list[player_index as int]].placed.len() == 0,
        response is InvalidRequest ==> t == s,
        !(response is InvalidRequest) ==> {
            let top = s.players[s.id_list[player_index as int]].placed.last();
            &&& response is RedCard <==> top == 0
            &&& response is BlackCard || response is WonGame <==> top != 0
        },
{
}

/// A red card costs its finder one card of the hand, nobody any point, and ends the round: the
/// stacks, bids and passes go, first cards are placed again, and the turn is at the seat after
/// the flipper's.
pub proof fn law_turning_over_a_red_card(
    s: GameView,
    id: IDsize,
    player_index: usize,
    response: ResponseView,
    t: GameView,
    player: IDsize,
    flipper_seat: int,
)
    requires
        s.wf(),
        s.stage is Flipping,
        can_handle(s, Some(id), Some(ClientMessage::Pickup { player_index })),
        transition(s, Some(id), Some(ClientMessage::Pickup { player_index }), response, t),
        player_index < s.id_list.len(),
        s.players[s.id_list[player_index as int]].placed.len() > 0,
        s.players[s.id_list[player_index as int]].placed.last() == 0,
        0 <= flipper_seat < s.id_list.len(),
        s.id_list[flipper_seat] == s.stage->flipper,
    ensures
        response is RedCard,
        t.stage is InitialCard,
        t.players.contains_key(player) == s.players.contains_key(player),
        s.players.contains_key(player) ==> {
            &&& t.players[player].name == s.players[player].name
            &&& t.players[player].points == s.players[player].points
            &&& t.players[player].placed.len() == 0
            &&& t.players[player].bid is None
            &&& !t.players[player].passed
            &&& player != id ==> t.players[player].owned == s.players[player].owned
        },
        t.players[id].owned.len() + 1 == s.players[id].owned.len(),
        exists|lost: int|
            0 <= lost < s.players[id].owned.len() && t.players[id].owned
                == #[trigger] s.players[id].owned.remove(lost),
        flipper_seat + 1 < s.id_list.len() ==> t.current_player_index == flipper_seat + 1,
        flipper_seat + 1 == s.id_list.len() ==> t.current_player_index == 0,
        t.unique_names == s.unique_names,
        t.host_id == s.host_id,
        t.id_list == s.id_list,
{
    lemma_seats(s);
    lemma_turn_after(s, flipper_seat);
    let taken = s.picked_up(player_index as int);
    let lost = choose|lost: int|
        0 <= lost < s.players[id].owned.len() && t == #[trigger] taken.lost_card(
            id,
            lost,
        ).next_round(s.stage->flipper);
    assert(t.players[id].owned == s.players[id].owned.remove(lost));
    assert(t.players.dom() =~= s.players.dom());
    assert(taken.lost_card(id, lost).players.dom() =~= s.players.dom());
}

/// The position after that of the flipper, as a remainder, is the next seat or the first.
proof fn lemma_turn_after(s: GameView, flipper_seat: int)
    requires
        s.wf(),
        s.in_play(),
        0 <= flipper_seat < s.id_list.len(),
    ensures
        crate::state::last_position(s.id_list, s.id_list[flipper_seat]) == flipper_seat,
        (flipper_seat + 1) % (s.players.len() as int) == (if flipper_seat + 1 < s.id_list.len() {
            flipper_seat + 1
        } else {
            0
        }),
{
    lemma_seats(s);
    lemma_last_position(s.id_list, s.id_list[flipper_seat]);
    let n = s.id_list.len();
    if flipper_seat + 1 < n {
        vstd::arithmetic::div_mod::lemma_small_mod((flipper_seat + 1) as nat, n);
    } else {
        vstd::arithmetic::div_mod::lemma_mod_self_0(n as int);
    }
}

/// A black card that does not make up the required number, counted in one byte, moves from the
/// top of its stack onto the flipped ones. The flipping goes on, nobody scores, and nothing
/// else changes.
pub proof fn law_turning_over_a_black_card(
    s: GameView,
    id: IDsize,
    player_index: usize,
    response: ResponseView,
    t: GameView,
    player: IDsize,
)
    requires
        s.wf(),
        s.stage is Flipping,
        transition(s, Some(id), Some(ClientMessage::Pickup { player_index }), response, t),
        player_index < s.id_list.len(),
        s.players[s.id_list[player_index as int]].placed.len() > 0,
        s.players[s.id_list[player_index as int]].placed.last() != 0,
        (s.stage->flipped.len() + 1) % 256 != s.stage->required,
    ensures
        response is BlackCard,
        t.stage is Flipping,
        t.stage->flipper == s.stage->flipper,
        t.stage->required == s.stage->required,
        t.stage->flipped.len() == s.stage->flipped.len() + 1,
        t.stage->flipped.drop_last() == s.stage->flipped,
        t.stage->flipped.last() == s.players[s.id_list[player_index as int]].placed.last(),
        t.players.contains_key(player) == s.players.contains_key(player),
        player != s.id_list[player_index as int] ==> t.players[player] == s.players[player],
        ({
            let owner = s.id_list[player_index as int];
            &&& t.players[owner].placed.len() + 1 == s.players[owner].placed.len()
            &&& forall|i: int|
                0 <= i < t.players[owner].placed.len() ==> #[trigger] t.players[owner].placed[i]
                    == s.players[owner].placed[i]
            &&& t.players[owner].name == s.players[owner].name
            &&& t.players[owner].owned == s.players[owner].owned
            &&& t.players[owner].bid == s.players[owner].bid
            &&& t.players[owner].points == s.players[owner].points
            &&& t.players[owner].passed == s.players[owner].passed
        }),
        t.unique_names == s.unique_names,
        t.host_id == s.host_id,
        t.id_list == s.id_list,
        t.current_player_index == s.current_player_index,
{
    lemma_seats(s);
    assert(t.stage->flipped.drop_last() =~= s.stage->flipped);
}

/// The black card that makes up the required number, counted in one byte, earns its finder
/// exactly one point and nobody else any. The second point wins the game: the table is in the
/// lobby with the finder as the winner, and every hand is full again. The first one ends the
/// round: first cards are placed again, hands stay as they are, and the turn is at the seat
/// after the flipper's. Either way stacks, bids and passes go.
pub proof fn law_meeting_the_bid(
    s: GameView,
    id: IDsize,
    player_index: usize,
    response: ResponseView,
    t: GameView,
    player: IDsize,
    flipper_seat: int,
)
    requires
        s.wf(),
        s.stage is Flipping,
        can_handle(s, Some(id), Some(ClientMessage::Pickup { player_index })),
        transition(s, Some(id), Some(ClientMessage::Pickup { player_index }), response, t),
        player_index < s.id_list.len(),
        s.players[s.id_list[player_index as int]].placed.len() > 0,
        s.players[s.id_list[player_index as int]].placed.last() != 0,
        (s.stage->flipped.len() + 1) % 256 == s.stage->required,
    ensures
        t.players.contains_key(player) == s.players.contains_key(player),
        t.players[id].points == s.players[id].points + 1,
        s.players.contains_key(player) ==> {
            &&& player != id ==> t.players[player].points == s.players[player].points
            &&& t.players[player].name == s.players[player].name
            &&& t.players[player].placed.len() == 0
            &&& t.players[player].bid is None
            &&& !t.players[player].passed
        },
        s.players[id].points == 1 ==> {
            &&& response is WonGame
            &&& t.stage is Lobby
            &&& t.stage->winner == Some(id)
            &&& t.current_player_index == s.current_player_index
            &&& s.players.contains_key(player) ==> t.players[player].owned.len() == 4 && (
            forall|i: int| 0 <= i < 4 ==> #[trigger] t.players[player].owned[i] == i)
        },
        s.players[id].points != 1 ==> {
            &&& response is BlackCard
            &&& t.stage is InitialCard
            &&& s.players.contains_key(player) ==> t.players[player].owned
                == s.players[player].owned
            &&& 0 <= flipper_seat < s.id_list.len() && s.id_list[flipper_seat]
                == s.stage->flipper ==> t.current_player_index == (if flipper_seat + 1
                < s.id_list.len() {
                flipper_seat + 1
            } else {
                0
            })
        },
        t.unique_names == s.unique_names,
        t.host_id == s.host_id,
        t.id_list == s.id_list,
{
    lemma_seats(s);
    if 0 <= flipper_seat < s.id_list.len() {
        lemma_turn_after(s, flipper_seat);
    }
    assert(t.players.dom() =~= s.players.dom());
    let taken = s.picked_up(player_index as int);
    assert(taken.scored(id).players.dom() =~= s.players.dom());
}

/// Of the cards that can be turned over, exactly the one that makes up the required number gives
/// its finder a point, and the flipping ends exactly with that one or with a red one.
pub proof fn law_when_flipping_pays_and_ends(
    s: GameView,
    id: IDsize,
    player_index: usize,
    response: ResponseView,
    t: GameView,
)
    requires
        s.wf(),
        s.stage is Flipping,
        can_handle(s, Some(id), Some(ClientMessage::Pickup { player_index })),
        transition(s, Some(id), Some(ClientMessage::Pickup { player_index }), response, t),
        player_index < s.id_list.len(),
        s.players[s.id_list[player_index as int]].placed.len() > 0,
    ensures
        ({
            let red = s.players[s.id_list[player_index as int]].placed.last() == 0;
            let met = (s.stage->flipped.len() + 1) % 256 == s.stage->required;
            &&& t.players[id].points == s.players[id].points + 1 <==> !red && met
            &&& t.players[id].points == s.players[id].points <==> red || !met
            &&& t.stage is Flipping <==> !red && !met
            &&& red ==> t.stage is InitialCard
        }),
{
    lemma_seats(s);
}

/// A joined sender who asks to see the whole table is shown it.
pub proof fn law_debugging(s: GameView, id: IDsize, response: ResponseView, t: GameView)
    requires
        transition(s, Some(id), Some(ClientMessage::Debug), response, t),
    ensures
        response is Debug,
        response->Debug_0 == s,
        t == s,
{
}

} // verus!
