//! Answers to what clients ask.

use vstd::prelude::*;
use crate::laws::law_stays_well_formed;
use crate::message::{BroadcastMessage, ClientMessage, ClientResponse, ResponseView};
use crate::player::{Bidsize, Cardsize, IDsize, PlayerState, PlayerView};
use crate::player::{MAX_CARD, RED_CARD, WINNING_POINTS};
use crate::random::{random_id, random_index};
use crate::rounds::{all_passed, all_placed_one, lemma_views_insert, player_ids};
use crate::rounds::{increment_turn, start_game, start_next_game, start_next_round};
use crate::rules::{
    add_card_rule, can_handle, can_pick_up, first_card_rule, get_state_rule, join_rule,
    low_byte, open_bid_rule, pass_rule, pickup_rule, quit_rule, raise_bid_rule, rejoin_rule,
    start_game_rule, transition, DEBUG,
};
use crate::state::{player_views, GameStage, GameState};

verus! {

/// The low byte of a length, as a cast to one byte leaves it.
fn truncated(len: usize) -> (byte: u8)
    ensures
        byte == low_byte(len as nat),
{
    assert(len as u8 == len % 256) by (bit_vector);
    #[verifier::truncate]
    let byte: u8 = len as u8;
    byte
}

/// The id of the next player to join.
fn new_id(state: &GameState) -> (id: IDsize)
    requires
        state.unique_names.wf(),
    ensures
        state@.is_new_id(id),
{
    if DEBUG {
        state.unique_names.len() as IDsize
    } else {
        // Draws until an id is free. Only chance ends this loop, so there is no measure to
        // give; it is not entered while `DEBUG` is set.
        loop
            invariant
                !DEBUG,
            decreases 0int,
        {
            let id: IDsize = random_id();
            if !state.players.contains_key(&id) {
                return id;
            }
        }
    }
}

/// Seats a new player as `id`.
pub fn join_as(state: &mut GameState, name: String, id: IDsize)
    requires
        old(state).unique_names.wf(),
    ensures
        final(state).unique_names.wf(),
        final(state)@ == old(state)@.joined(id, name@),
{
    let ghost players = state.players@;
    state.unique_names.insert(name.clone());
    state.players.insert(id, PlayerState::joined(name));
    proof {
        lemma_views_insert(players, id, state.players@[id]);
        assert(state@.players.dom() =~= state.players@.dom());
    }
    if state.players.len() == 1 {
        state.host_id = Some(id);
    }
}

/// Lets someone join under `name`.
fn join<'a>(state: &mut GameState, name: String) -> (response: ClientResponse<'a>)
    requires
        old(state).unique_names.wf(),
    ensures
        final(state).unique_names.wf(),
        join_rule(old(state)@, name@, response@, final(state)@),
{
    if state.unique_names.contains(&name) {
        return ClientResponse::NameTaken;
    }
    let id: IDsize = new_id(state);
    join_as(state, name, id);
    ClientResponse::ValidJoin { id }
}

/// Recognises a player.
fn rejoin<'a>(state: &GameState, id: IDsize) -> (response: ClientResponse<'a>)
    ensures
        rejoin_rule(state@, id, response@, state@),
{
    if state.players.contains_key(&id) {
        if let Some(host_id) = state.host_id {
            if host_id == id {
                return ClientResponse::ValidRejoin { id, is_host: true };
            }
        }
        ClientResponse::ValidRejoin { id, is_host: false }
    } else {
        ClientResponse::InvalidRequest
    }
}

/// Lets a player leave the lobby.
fn quit<'a>(state: &mut GameState, id: IDsize) -> (response: ClientResponse<'a>)
    requires
        old(state).unique_names.wf(),
        old(state)@.players.contains_key(id),
    ensures
        final(state).unique_names.wf(),
        quit_rule(old(state)@, id, response@, final(state)@),
{
    if let Some(player) = state.players.remove(&id) {
        state.unique_names.remove(&player.name);
    }
    proof {
        assert(player_views(state.players@) =~= old(state)@.players.remove(id));
    }
    if let Some(host_id) = state.host_id {
        if id == host_id {
            let ids = player_ids(&state.players);
            if ids.len() > 0 {
                assert(ids@.to_set().contains(ids@[0]));
                state.host_id = Some(ids[0]);
            } else {
                assert(state.players@.dom() =~= Set::<IDsize>::empty());
                assert forall|k: IDsize| old(state)@.players.contains_key(k) implies k == id by {
                    assert(k != id ==> state.players@.contains_key(k));
                }
                assert(old(state)@.players.dom() =~= set![id]);
                state.host_id = None;
            }
        }
    }
    ClientResponse::ValidQuit
}

/// Shows the table to a player.
fn get_state<'a>(state: &'a GameState, id: IDsize) -> (response: ClientResponse<'a>)
    requires
        state@.players.contains_key(id) ==> (forall|i: int|
            0 <= i < state@.id_list.len() ==> state@.players.contains_key(
                #[trigger] state@.id_list[i],
            )),
    ensures
        get_state_rule(state@, id, response@, state@),
{
    if let Some(player_state) = state.players.get(&id) {
        let mut players_num_cards: Vec<Cardsize> = Vec::new();
        let mut i: usize = 0;
        while i < state.id_list.len()
            invariant
                i <= state.id_list@.len(),
                forall|k: int|
                    0 <= k < state@.id_list.len() ==> state@.players.contains_key(
                        #[trigger] state@.id_list[k],
                    ),
                players_num_cards@ == state@.num_cards().take(i as int),
            decreases state.id_list@.len() - i,
        {
            assert(state@.players.contains_key(state@.id_list[i as int]));
            if let Some(player) = state.players.get(&state.id_list[i]) {
                players_num_cards.push(truncated(player.placed.len()));
            }
            i += 1;
        }
        assert(players_num_cards@ =~= state@.num_cards());
        ClientResponse::State {
            player_state,
            game_stage: &state.stage,
            current_player_index: state.current_player_index,
            players_num_cards,
        }
    } else {
        ClientResponse::InvalidRequest
    }
}

/// Starts a game if the host asks for it.
fn ask_to_start<'a>(state: &mut GameState, id: IDsize) -> (response: ClientResponse<'a>)
    requires
        old(state)@.wf(),
    ensures
        final(state).unique_names == old(state).unique_names,
        start_game_rule(old(state)@, id, response@, final(state)@),
{
    if let Some(host_id) = state.host_id {
        if host_id == id {
            proof {
                lemma_not_empty(state@.players, id);
            }
            start_game(state);
            return ClientResponse::GameStarted;
        }
    }
    ClientResponse::InvalidRequest
}

/// Puts `card` on top of the stack of the player `id`.
fn place(state: &mut GameState, id: IDsize, card: Cardsize)
    requires
        old(state)@.players.contains_key(id),
    ensures
        final(state).unique_names == old(state).unique_names,
        final(state)@ == old(state)@.placed(id, card),
{
    let ghost players = state.players@;
    if let Some(mut player) = state.players.remove(&id) {
        player.placed.push(card);
        state.players.insert(id, player);
        proof {
            lemma_views_insert(players, id, player);
        }
    }
}

/// Lets a player place a first card.
fn first_card<'a>(state: &mut GameState, id: IDsize, card: Cardsize) -> (response: ClientResponse<
    'a,
>)
    requires
        old(state)@.stage is InitialCard,
    ensures
        final(state).unique_names == old(state).unique_names,
        first_card_rule(old(state)@, id, card, response@, final(state)@),
{
    if card > MAX_CARD {
        return ClientResponse::InvalidRequest;
    }
    let may_place = match state.players.get(&id) {
        Some(player) => player.placed.len() == 0,
        None => false,
    };
    if may_place {
        place(state, id, card);
        proof {
            lemma_views_hold(*state);
        }
        if all_placed_one(&state.players) {
            state.stage = GameStage::Turns;
        }
        return ClientResponse::ValidMove;
    }
    ClientResponse::InvalidRequest
}

/// The players and their views are found under the same ids.
proof fn lemma_views_hold(state: GameState)
    ensures
        forall|id: IDsize|
            #![trigger state.players@.contains_key(id)]
            #![trigger state@.players.contains_key(id)]
            state.players@.contains_key(id) == state@.players.contains_key(id) && (
            state.players@.contains_key(id) ==> state@.players[id] == state.players@[id]@),
{
}

/// Lets the player whose turn it is add a card.
fn add_card<'a>(state: &mut GameState, id: IDsize, card: Cardsize) -> (response: ClientResponse<'a>)
    requires
        old(state)@.wf(),
        old(state)@.stage is Turns,
    ensures
        final(state).unique_names == old(state).unique_names,
        add_card_rule(old(state)@, id, card, response@, final(state)@),
{
    let current_id = state.id_list[state.current_player_index];
    if card > MAX_CARD || id != current_id {
        return ClientResponse::InvalidRequest;
    }
    proof {
        assert(state@.id_list.to_set().contains(current_id));
    }
    place(state, id, card);
    proof {
        lemma_not_empty(state@.players, id);
        assert(state.current_player_index < state.id_list.len());
    }
    increment_turn(state);
    ClientResponse::ValidMove
}

/// A finite map that holds a key has a positive size.
proof fn lemma_not_empty(players: Map<IDsize, PlayerView>, id: IDsize)
    requires
        players.dom().finite(),
        players.contains_key(id),
    ensures
        players.len() > 0,
{
    if players.dom().len() == 0 {
        assert(players.dom() =~= Set::<IDsize>::empty());
    }
}

/// Lets the player whose turn it is open the bidding.
fn open_bid<'a>(state: &mut GameState, id: IDsize, bid: Bidsize) -> (response: ClientResponse<'a>)
    requires
        old(state)@.wf(),
        old(state)@.stage is Turns,
    ensures
        final(state).unique_names == old(state).unique_names,
        open_bid_rule(old(state)@, id, bid, response@, final(state)@),
{
    let current_id = state.id_list[state.current_player_index];
    if id == current_id {
        state.stage = GameStage::Bidding { highest_bidder: id, highest_bid: bid };
        return ClientResponse::ValidMove;
    }
    ClientResponse::InvalidRequest
}

/// Lets someone top the bid.
fn raise_bid<'a>(
    state: &mut GameState,
    highest_bid: Bidsize,
    id: IDsize,
    bid: Bidsize,
) -> (response: ClientResponse<'a>)
    ensures
        final(state).unique_names == old(state).unique_names,
        raise_bid_rule(old(state)@, highest_bid, id, bid, response@, final(state)@),
{
    if bid > highest_bid {
        state.stage = GameStage::Bidding { highest_bidder: id, highest_bid: bid };
        return ClientResponse::ValidMove;
    }
    ClientResponse::InvalidRequest
}

/// Lets a player leave the bidding.
fn pass<'a>(
    state: &mut GameState,
    highest_bidder: IDsize,
    highest_bid: Bidsize,
    id: IDsize,
) -> (response: ClientResponse<'a>)
    ensures
        final(state).unique_names == old(state).unique_names,
        pass_rule(old(state)@, highest_bidder, highest_bid, id, response@, final(state)@),
{
    let ghost players = state.players@;
    if let Some(mut player) = state.players.remove(&id) {
        player.passed = true;
        state.players.insert(id, player);
        proof {
            lemma_views_insert(players, id, player);
            lemma_views_hold(*state);
        }
        if all_passed(&state.players) {
            let flipped: Vec<Cardsize> = Vec::new();
            state.stage =
            GameStage::Flipping { flipper: highest_bidder, required: highest_bid, flipped };
        }
        return ClientResponse::ValidMove;
    }
    assert(state.players@ =~= players);
    ClientResponse::InvalidRequest
}

/// Takes the top card of the player at `seat`, if there is one.
fn take_top(state: &mut GameState, seat: usize) -> (card: Option<Cardsize>)
    requires
        seat < old(state)@.id_list.len(),
        old(state)@.players.contains_key(old(state)@.id_list[seat as int]),
    ensures
        final(state).unique_names == old(state).unique_names,
        match card {
            Some(card) => {
                &&& old(state)@.stack(seat as int).len() > 0
                &&& card == old(state)@.stack(seat as int).last()
                &&& final(state)@ == old(state)@.picked_up(seat as int)
            },
            None => old(state)@.stack(seat as int).len() == 0 && final(state)@ == old(state)@,
        },
{
    let owner = state.id_list[seat];
    let ghost players = state.players@;
    if let Some(mut player) = state.players.remove(&owner) {
        let card = player.placed.pop();
        state.players.insert(owner, player);
        proof {
            lemma_views_insert(players, owner, player);
            let stack = old(state)@.stack(seat as int);
            if stack.len() > 0 {
                assert(player.placed@ =~= stack.drop_last());
            } else {
                assert(state@.players =~= old(state)@.players);
            }
        }
        return card;
    }
    None
}

/// Settles a red card: `id` loses the card at position `lost` of the own hand, and the next
/// round starts with the player after `flipper`.
pub fn settle_red(state: &mut GameState, id: IDsize, flipper: IDsize, lost: usize)
    requires
        old(state)@.players.contains_key(id),
        lost < old(state)@.players[id].owned.len(),
        old(state)@.id_list.contains(flipper),
    ensures
        final(state).unique_names == old(state).unique_names,
        final(state)@ == old(state)@.lost_card(id, lost as int).next_round(flipper),
{
    let ghost players = state.players@;
    if let Some(mut player) = state.players.remove(&id) {
        player.owned.remove(lost);
        state.players.insert(id, player);
        proof {
            lemma_views_insert(players, id, player);
        }
    }
    proof {
        assert(state@.players.dom() =~= state.players@.dom());
        lemma_not_empty(state@.players, id);
    }
    start_next_round(state, &flipper);
}

/// Settles the black card that makes up the required number: `id` wins a point, and with it
/// the game or, if that takes more points, the next round starts with the player after
/// `flipper`.
fn settle_bid<'a>(state: &mut GameState, id: IDsize, flipper: IDsize) -> (response: ClientResponse<
    'a,
>)
    requires
        old(state)@.players.contains_key(id),
        old(state)@.players[id].points < u8::MAX,
        old(state)@.players[id].points + 1 != WINNING_POINTS ==> old(state)@.id_list.contains(
            flipper,
        ),
    ensures
        final(state).unique_names == old(state).unique_names,
        if old(state)@.players[id].points + 1 == WINNING_POINTS {
            response@ == ResponseView::WonGame && final(state)@ == old(state)@.scored(id).game_won(
                id,
            )
        } else {
            response@ == ResponseView::BlackCard && final(state)@ == old(state)@.scored(
                id,
            ).next_round(flipper)
        },
{
    let ghost players = state.players@;
    if let Some(mut player) = state.players.remove(&id) {
        player.points += 1;
        let points = player.points;
        state.players.insert(id, player);
        proof {
            lemma_views_insert(players, id, player);
            assert(state@ == old(state)@.scored(id));
        }
        if points == WINNING_POINTS {
            start_next_game(state, id);
            return ClientResponse::WonGame;
        }
        proof {
            assert(state@.players.dom() =~= state.players@.dom());
            lemma_not_empty(state@.players, id);
        }
        start_next_round(state, &flipper);
    }
    ClientResponse::BlackCard
}

/// Turns over the top card of the player at `player_index`.
fn pickup<'a>(
    state: &mut GameState,
    flipper: IDsize,
    required: Bidsize,
    flipped: Vec<Cardsize>,
    id: IDsize,
    player_index: usize,
) -> (response: ClientResponse<'a>)
    requires
        old(state)@.wf(),
        old(state)@.stage is Flipping,
        can_pick_up(old(state)@, flipper, required, flipped@, id, player_index as int),
    ensures
        final(state).unique_names == old(state).unique_names,
        pickup_rule(
            old(state)@,
            flipper,
            required,
            flipped@,
            id,
            player_index as int,
            response@,
            final(state)@,
        ),
{
    if player_index > state.id_list.len() {
        return ClientResponse::InvalidRequest;
    }
    proof {
        assert(state@.id_list.to_set().contains(state@.id_list[player_index as int]));
    }
    let flipped_card = match take_top(state, player_index) {
        Some(card) => card,
        None => {
            return ClientResponse::InvalidRequest;
        },
    };
    proof {
        assert(state@.players.dom() =~= old(state)@.players.dom());
        if state@.players.contains_key(flipper) {
            assert(state@.id_list.to_set().contains(flipper));
        }
    }
    if flipped_card == RED_CARD {
        let num_owned = match state.players.get(&id) {
            Some(player) => player.owned.len(),
            None => 0,
        };
        let lost = random_index(num_owned);
        settle_red(state, id, flipper, lost);
        ClientResponse::RedCard
    } else {
        let mut new_flipped = flipped;
        new_flipped.push(flipped_card);
        if truncated(new_flipped.len()) == required {
            settle_bid(state, id, flipper)
        } else {
            state.stage = GameStage::Flipping { flipper, required, flipped: new_flipped };
            ClientResponse::BlackCard
        }
    }
}

/// Answers a message.
///
/// `message` is what could be read of it, if anything could, and `maybe_id` is the sender's id,
/// if the sender has joined. The response goes to the sender, the broadcast to everyone.
pub fn handle_message<'a>(
    message: Option<ClientMessage>,
    maybe_id: Option<IDsize>,
    state: &'a mut GameState,
) -> (answer: (ClientResponse<'a>, BroadcastMessage))
    requires
        old(state).wf(),
        can_handle(old(state)@, maybe_id, message),
    ensures
        final(state).wf(),
        transition(old(state)@, maybe_id, message, answer.0@, final(state)@),
        answer.1 == BroadcastMessage::Nothing,
{
    let ghost asked = message;
    let message = match message {
        Some(message) => message,
        None => {
            return (ClientResponse::InvalidJSON, BroadcastMessage::Nothing);
        },
    };
    if maybe_id.is_none() {
        match message {
            ClientMessage::Join { .. } | ClientMessage::Rejoin { .. } => {},
            _ => {
                return (ClientResponse::NotJoined, BroadcastMessage::Nothing);
            },
        }
    }
    let response = match (message, state.stage.clone()) {
        (ClientMessage::Join { name }, GameStage::Lobby { .. }) => join(state, name),
        (ClientMessage::Rejoin { id }, _) => rejoin(state, id),
        (ClientMessage::Quit, GameStage::Lobby { .. }) => quit(state, maybe_id.unwrap()),
        (ClientMessage::GetState, _) => get_state(state, maybe_id.unwrap()),
        (ClientMessage::StartGame, GameStage::Lobby { .. }) => ask_to_start(
            state,
            maybe_id.unwrap(),
        ),
        (ClientMessage::PlaceCard { card }, GameStage::InitialCard) => first_card(
            state,
            maybe_id.unwrap(),
            card,
        ),
        (ClientMessage::PlaceCard { card }, GameStage::Turns) => add_card(
            state,
            maybe_id.unwrap(),
            card,
        ),
        (ClientMessage::Bid { bid }, GameStage::Turns) => open_bid(state, maybe_id.unwrap(), bid),
        (ClientMessage::Bid { bid }, GameStage::Bidding { highest_bid, .. }) => raise_bid(
            state,
            highest_bid,
            maybe_id.unwrap(),
            bid,
        ),
        (ClientMessage::Pass, GameStage::Bidding { highest_bidder, highest_bid }) => pass(
            state,
            highest_bidder,
            highest_bid,
            maybe_id.unwrap(),
        ),
        (
            ClientMessage::Pickup { player_index },
            GameStage::Flipping { flipper, required, flipped },
        ) => pickup(state, flipper, required, flipped, maybe_id.unwrap(), player_index),
        (ClientMessage::Debug, _) => {
            if DEBUG {
                ClientResponse::Debug(state)
            } else {
                ClientResponse::InvalidRequest
            }
        },
        _ => ClientResponse::InvalidRequest,
    };
    proof {
        law_stays_well_formed(old(state)@, maybe_id, asked, response@, state@);
    }
    (response, BroadcastMessage::Nothing)
}

} // verus!
