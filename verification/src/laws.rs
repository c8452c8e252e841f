//! What holds of the table across messages.

use vstd::prelude::*;
use crate::message::{ClientMessage, ResponseView};
use crate::player::{Bidsize, Cardsize, IDsize, PlayerView};
use crate::player::{full_hand, MAX_CARD, RED_CARD, WINNING_POINTS};
use crate::rules::{can_handle, can_pick_up, low_byte, pickup_rule, transition, DEBUG};
use crate::state::{is_last_position, last_position, GameView, StageView};

verus! {

/// There are as many seats as players.
pub(crate) proof fn lemma_seats(s: GameView)
    requires
        s.is_seating(s.id_list),
    ensures
        s.players.dom().finite(),
        s.id_list.len() == s.players.len(),
        forall|i: int|
            0 <= i < s.id_list.len() ==> s.players.contains_key(#[trigger] s.id_list[i]),
        forall|id: IDsize| #[trigger] s.players.contains_key(id) ==> s.id_list.contains(id),
{
    s.id_list.unique_seq_to_set();
    assert forall|i: int| 0 <= i < s.id_list.len() implies s.players.contains_key(
        #[trigger] s.id_list[i],
    ) by {
        assert(s.id_list.to_set().contains(s.id_list[i]));
    }
    assert forall|id: IDsize| #[trigger] s.players.contains_key(id) implies s.id_list.contains(
        id,
    ) by {
        assert(s.id_list.to_set().contains(id));
    }
}

/// Whoever has a seat has a last one.
pub(crate) proof fn lemma_last_position(ids: Seq<IDsize>, id: IDsize)
    requires
        ids.contains(id),
    ensures
        is_last_position(ids, id, last_position(ids, id)),
    decreases ids.len(),
{
    if ids.last() == id {
        assert(is_last_position(ids, id, ids.len() - 1));
    } else {
        let shorter = ids.drop_last();
        let k = choose|k: int| 0 <= k < ids.len() && ids[k] == id;
        assert(shorter[k] == id);
        lemma_last_position(shorter, id);
        let i = last_position(shorter, id);
        assert(shorter[i] == id);
        assert forall|j: int| i < j < ids.len() implies ids[j] != id by {
            if j < ids.len() - 1 {
                assert(shorter[j] != id);
            }
        }
        assert(is_last_position(ids, id, i));
    }
}

/// The next round of a game is in play again.
proof fn lemma_next_round(s: GameView, flipper: IDsize)
    requires
        s.wf(),
        s.in_play(),
        s.players.contains_key(flipper),
    ensures
        s.next_round(flipper).wf(),
{
    let t = s.next_round(flipper);
    lemma_seats(s);
    lemma_last_position(s.id_list, flipper);
    assert(t.players.dom() =~= s.players.dom());
    let n = s.players.len() as int;
    assert(0 <= (last_position(s.id_list, flipper) + 1) % n < n);
}

/// Replacing the seat of a player by one that has not won keeps a table in play.
proof fn lemma_with_player(s: GameView, id: IDsize, player: PlayerView)
    requires
        s.wf(),
        s.in_play(),
        s.players.contains_key(id),
        player.points < WINNING_POINTS,
    ensures
        s.with_player(id, player).wf(),
        s.with_player(id, player).in_play(),
{
    assert(s.with_player(id, player).players.dom() =~= s.players.dom());
}

/// Turning over a card keeps the table well formed.
proof fn lemma_pickup_wf(
    s: GameView,
    flipper: IDsize,
    required: Bidsize,
    flipped: Seq<Cardsize>,
    id: IDsize,
    seat: int,
    response: ResponseView,
    t: GameView,
)
    requires
        s.wf(),
        s.stage == (StageView::Flipping { flipper, required, flipped }),
        0 <= seat,
        can_pick_up(s, flipper, required, flipped, id, seat),
        pickup_rule(s, flipper, required, flipped, id, seat, response, t),
    ensures
        t.wf(),
{
    lemma_seats(s);
    if seat < s.id_list.len() && s.stack(seat).len() > 0 {
        let card = s.stack(seat).last();
        let owner = s.id_list[seat];
        let taken = s.picked_up(seat);
        lemma_with_player(
            s,
            owner,
            PlayerView { placed: s.players[owner].placed.drop_last(), ..s.players[owner] },
        );
        assert(taken.players.contains_key(id));
        if card == RED_CARD {
            let lost = choose|lost: int|
                0 <= lost < s.players[id].owned.len() && t == #[trigger] taken.lost_card(
                    id,
                    lost,
                ).next_round(flipper);
            lemma_with_player(
                taken,
                id,
                PlayerView { owned: taken.players[id].owned.remove(lost), ..taken.players[id] },
            );
            lemma_next_round(taken.lost_card(id, lost), flipper);
        } else if low_byte(flipped.len() + 1) != required {
        } else if s.players[id].points + 1 == WINNING_POINTS {
            assert(t.players.dom() =~= s.players.dom());
        } else {
            lemma_with_player(
                taken,
                id,
                PlayerView {
                    points: (taken.players[id].points + 1) as u8,
                    ..taken.players[id]
                },
            );
            lemma_next_round(taken.scored(id), flipper);
        }
    }
}

/// Whatever message is handled, the table stays well formed.
pub proof fn law_stays_well_formed(
    s: GameView,
    maybe_id: Option<IDsize>,
    message: Option<ClientMessage>,
    response: ResponseView,
    t: GameView,
)
    requires
        s.wf(),
        can_handle(s, maybe_id, message),
        transition(s, maybe_id, message, response, t),
    ensures
        t.wf(),
{
    match (message, maybe_id, s.stage) {
        (Some(ClientMessage::Join { name }), _, StageView::Lobby { .. }) => {
            if let ResponseView::ValidJoin { id } = response {
                assert(t.players.dom() =~= s.players.dom().insert(id));
                if s.host_id is None {
                    assert(t.players.dom() =~= set![id]);
                }
            }
        },
        (Some(ClientMessage::Quit), Some(id), StageView::Lobby { .. }) => {
            assert(t.players.dom() =~= s.players.dom().remove(id));
            assert(s.players.dom().contains(id));
            if t.host_id is None {
                assert(t.players.dom() =~= Set::<IDsize>::empty());
            }
        },
        (Some(ClientMessage::StartGame), Some(id), StageView::Lobby { .. }) => {
            assert(t.players.dom() =~= s.players.dom());
        },
        (Some(ClientMessage::PlaceCard { card }), Some(id), StageView::InitialCard) => {
            if s.players.contains_key(id) {
                let player = s.players[id];
                lemma_with_player(
                    s,
                    id,
                    PlayerView { placed: player.placed.push(card), ..player },
                );
            }
        },
        (Some(ClientMessage::PlaceCard { card }), Some(id), StageView::Turns) => {
            lemma_seats(s);
            if s.players.contains_key(id) {
                let player = s.players[id];
                lemma_with_player(
                    s,
                    id,
                    PlayerView { placed: player.placed.push(card), ..player },
                );
                lemma_seats(s.placed(id, card));
            }
        },
        (Some(ClientMessage::Pass), Some(id), StageView::Bidding { .. }) => {
            if s.players.contains_key(id) {
                lemma_with_player(s, id, PlayerView { passed: true, ..s.players[id] });
            }
        },
        (
            Some(ClientMessage::Pickup { player_index }),
            Some(id),
            StageView::Flipping { flipper, required, flipped },
        ) => {
            lemma_pickup_wf(s, flipper, required, flipped, id, player_index as int, response, t);
        },
        _ => {},
    }
}

/// A response that refuses the message.
pub open spec fn is_refusal(response: ResponseView) -> bool {
    ||| response is InvalidRequest
    ||| response is InvalidJSON
    ||| response is NotJoined
    ||| response is NameTaken
}

/// A refused message leaves the table as it was.
pub proof fn law_refusals_change_nothing(
    s: GameView,
    maybe_id: Option<IDsize>,
    message: Option<ClientMessage>,
    response: ResponseView,
    t: GameView,
)
    requires
        transition(s, maybe_id, message, response, t),
        is_refusal(response),
    ensures
        t == s,
{
}

/// Looking at the table, rejoining and debugging leave it as it was.
pub proof fn law_queries_change_nothing(
    s: GameView,
    maybe_id: Option<IDsize>,
    message: ClientMessage,
    response: ResponseView,
    t: GameView,
)
    requires
        transition(s, maybe_id, Some(message), response, t),
        message is Rejoin || message is GetState || message is Debug,
    ensures
        t == s,
{
}

/// Any message of someone who has not joined can be handled, at any table. Only joining or
/// rejoining gets an answer other than that the sender has not joined, and only joining changes
/// the table.
pub proof fn law_strangers_can_only_join(
    s: GameView,
    message: ClientMessage,
    response: ResponseView,
    t: GameView,
)
    requires
        transition(s, None, Some(message), response, t),
    ensures
        can_handle(s, None, Some(message)),
        !(message is Join) && !(message is Rejoin) ==> response is NotJoined,
        response is NotJoined ==> !(message is Join) && !(message is Rejoin),
        !(message is Join) ==> t == s,
{
}

/// A message that cannot be read is answered as such and leaves the table as it was, whoever
/// sent it; no other message is answered so.
pub proof fn law_unreadable_messages(
    s: GameView,
    maybe_id: Option<IDsize>,
    message: Option<ClientMessage>,
    response: ResponseView,
    t: GameView,
)
    requires
        transition(s, maybe_id, message, response, t),
    ensures
        message is None <==> response is InvalidJSON,
        message is None ==> t == s && can_handle(s, maybe_id, message),
{
}

/// In a lobby a name can be taken exactly if it is not in use, and once taken it is refused to
/// everyone else.
pub proof fn law_names_are_taken_once(
    s: GameView,
    maybe_id: Option<IDsize>,
    name: String,
    response: ResponseView,
    t: GameView,
    other_id: Option<IDsize>,
    other_response: ResponseView,
    u: GameView,
)
    requires
        s.stage is Lobby,
        transition(s, maybe_id, Some(ClientMessage::Join { name }), response, t),
        transition(t, other_id, Some(ClientMessage::Join { name }), other_response, u),
    ensures
        response is ValidJoin <==> !s.unique_names.contains(name@),
        response is NameTaken <==> s.unique_names.contains(name@),
        other_response is NameTaken,
        u == t,
{
}

/// The id that a new player is given is the one to rejoin with.
pub proof fn law_rejoin_after_join(
    s: GameView,
    maybe_id: Option<IDsize>,
    name: String,
    id: IDsize,
    t: GameView,
    other_id: Option<IDsize>,
    response: ResponseView,
    u: GameView,
)
    requires
        s.stage is Lobby,
        transition(
            s,
            maybe_id,
            Some(ClientMessage::Join { name }),
            ResponseView::ValidJoin { id },
            t,
        ),
        transition(t, other_id, Some(ClientMessage::Rejoin { id }), response, u),
    ensures
        response == (ResponseView::ValidRejoin { id, is_host: t.host_id == Some(id) }),
        t.players[id] == PlayerView::joined(name@),
        u == t,
{
}

/// Whoever joins an empty table is its host; joining a table with players leaves the host in
/// place.
pub proof fn law_first_player_is_host(
    s: GameView,
    maybe_id: Option<IDsize>,
    name: String,
    id: IDsize,
    t: GameView,
)
    requires
        s.wf(),
        s.stage is Lobby,
        transition(
            s,
            maybe_id,
            Some(ClientMessage::Join { name }),
            ResponseView::ValidJoin { id },
            t,
        ),
    ensures
        t.host_id == (if s.host_id is None {
            Some(id)
        } else {
            s.host_id
        }),
{
    assert(t.players.dom() =~= s.players.dom().insert(id));
    match s.host_id {
        None => {
            assert(t.players.dom() =~= set![id]);
        },
        Some(host) => {
            assert(t.players.dom().contains(host));
            if t.players.len() == 1 && host != id {
                assert(t.players.dom().remove(id).contains(host));
                assert(t.players.dom().remove(id).len() == 0);
                assert(t.players.dom().remove(id) =~= Set::<IDsize>::empty());
            }
        },
    }
}

/// Quitting undoes joining, if the new player's id was not in use.
pub proof fn law_quit_undoes_join(
    s: GameView,
    maybe_id: Option<IDsize>,
    name: String,
    id: IDsize,
    t: GameView,
    response: ResponseView,
    u: GameView,
)
    requires
        s.wf(),
        s.stage is Lobby,
        !s.players.contains_key(id),
        transition(
            s,
            maybe_id,
            Some(ClientMessage::Join { name }),
            ResponseView::ValidJoin { id },
            t,
        ),
        transition(t, Some(id), Some(ClientMessage::Quit), response, u),
    ensures
        can_handle(t, Some(id), Some(ClientMessage::Quit)),
        response is ValidQuit,
        u == s,
{
    law_first_player_is_host(s, maybe_id, name, id, t);
    assert(u.players =~= s.players);
    assert(u.unique_names =~= s.unique_names);
    match s.host_id {
        None => {
            assert(t.players.dom() =~= set![id]);
            if let Some(successor) = u.host_id {
                assert(t.players.dom().contains(successor));
            }
        },
        Some(host) => {
            assert(s.players.contains_key(host));
        },
    }
    assert(u =~= s);
}

/// A player who quits is gone, and the name can be taken again.
pub proof fn law_quitting_frees_the_name(
    s: GameView,
    id: IDsize,
    response: ResponseView,
    t: GameView,
    maybe_id: Option<IDsize>,
    name: String,
    other_response: ResponseView,
    u: GameView,
)
    requires
        s.stage is Lobby,
        s.players.contains_key(id),
        s.players[id].name == name@,
        transition(s, Some(id), Some(ClientMessage::Quit), response, t),
        transition(t, maybe_id, Some(ClientMessage::Join { name }), other_response, u),
    ensures
        response is ValidQuit,
        !t.players.contains_key(id),
        other_response is ValidJoin,
{
}

/// A game starts exactly when the host asks for it in the lobby.
pub proof fn law_only_the_host_starts_a_game(
    s: GameView,
    maybe_id: Option<IDsize>,
    message: Option<ClientMessage>,
    response: ResponseView,
    t: GameView,
)
    requires
        s.wf(),
        transition(s, maybe_id, message, response, t),
    ensures
        response is GameStarted <==> s.stage is Lobby && message == Some(ClientMessage::StartGame)
            && maybe_id is Some && maybe_id == s.host_id,
        response is GameStarted <==> s.stage is Lobby && t.stage !is Lobby,
{
}

/// While a game runs, no message changes who plays, under which names, who is the host, or
/// the seating.
pub proof fn law_players_stay_during_a_game(
    s: GameView,
    maybe_id: Option<IDsize>,
    message: Option<ClientMessage>,
    response: ResponseView,
    t: GameView,
)
    requires
        s.wf(),
        s.stage !is Lobby,
        can_handle(s, maybe_id, message),
        transition(s, maybe_id, message, response, t),
    ensures
        t.players.dom() == s.players.dom(),
        forall|id: IDsize| #[trigger]
            s.players.contains_key(id) ==> t.players[id].name == s.players[id].name,
        t.unique_names == s.unique_names,
        t.host_id == s.host_id,
        t.id_list == s.id_list,
{
    lemma_seats(s);
    assert(t.players.dom() =~= s.players.dom());
}

/// The stages follow each other in a fixed order: from the lobby to the first cards, to the
/// turns, to the bidding, to the flipping, and from there to the next round or back to the
/// lobby.
pub open spec fn may_follow(from: StageView, to: StageView) -> bool {
    match from {
        StageView::Lobby { winner } => to == from || to is InitialCard,
        StageView::InitialCard => to is InitialCard || to is Turns,
        StageView::Turns => to is Turns || to is Bidding,
        StageView::Bidding { .. } => to is Bidding || to is Flipping,
        StageView::Flipping { .. } => to is Flipping || to is InitialCard || to is Lobby,
    }
}

/// No message breaks the order of the stages.
pub proof fn law_stages_in_order(
    s: GameView,
    maybe_id: Option<IDsize>,
    message: Option<ClientMessage>,
    response: ResponseView,
    t: GameView,
)
    requires
        transition(s, maybe_id, message, response, t),
    ensures
        may_follow(s.stage, t.stage),
{
}

/// During the bidding the highest bid never falls, a bid is accepted exactly if it is higher,
/// and the flipper has to turn over as many cards as the highest bidder offered.
pub proof fn law_bids_only_rise(
    s: GameView,
    maybe_id: Option<IDsize>,
    message: Option<ClientMessage>,
    response: ResponseView,
    t: GameView,
)
    requires
        s.stage is Bidding,
        transition(s, maybe_id, message, response, t),
    ensures
        t.stage is Bidding ==> t.stage->highest_bid >= s.stage->highest_bid,
        t.stage is Bidding && t.stage != s.stage ==> t.stage->highest_bid > s.stage->highest_bid
            && maybe_id == Some(t.stage->highest_bidder),
        message matches Some(ClientMessage::Bid { bid }) ==> maybe_id is Some ==> (
        response is ValidMove <==> bid > s.stage->highest_bid),
        t.stage is Flipping ==> t.stage == (StageView::Flipping {
            flipper: s.stage->highest_bidder,
            required: s.stage->highest_bid,
            flipped: Seq::empty(),
        }),
{
}

/// The flipping starts exactly when the last player passes.
pub proof fn law_flipping_starts_when_all_have_passed(
    s: GameView,
    maybe_id: Option<IDsize>,
    message: Option<ClientMessage>,
    response: ResponseView,
    t: GameView,
)
    requires
        s.stage is Bidding,
        !s.all_passed(),
        transition(s, maybe_id, message, response, t),
    ensures
        t.stage is Flipping <==> t.all_passed(),
{
    if t.players == s.players {
        assert(!t.all_passed());
    }
}

/// In the turns stage only the player whose turn it is can move. A card hands the turn to the
/// next seat, a bid ends the turns.
pub proof fn law_only_the_current_player_moves(
    s: GameView,
    maybe_id: Option<IDsize>,
    message: Option<ClientMessage>,
    response: ResponseView,
    t: GameView,
)
    requires
        s.wf(),
        s.stage is Turns,
        transition(s, maybe_id, message, response, t),
    ensures
        t != s ==> maybe_id == Some(s.current_id()) && response is ValidMove,
        t != s && t.stage is Turns ==> t.current_player_index == (s.current_player_index + 1)
            % (s.id_list.len() as int),
        t.stage !is Turns ==> t.current_player_index == s.current_player_index,
{
    lemma_seats(s);
    if let Some(id) = maybe_id {
        if id == s.current_id() {
            assert(s.players.contains_key(id));
            if let Some(ClientMessage::PlaceCard { card }) = message {
                assert(s.placed(id, card).players.dom() =~= s.players.dom());
            }
        }
    }
}

/// A game is won exactly when a player who has one point less than it takes makes up the
/// required number of cards; that player is then the winner in the lobby, and nothing else
/// ends a game.
pub proof fn law_winning(
    s: GameView,
    maybe_id: Option<IDsize>,
    message: Option<ClientMessage>,
    response: ResponseView,
    t: GameView,
)
    requires
        s.wf(),
        can_handle(s, maybe_id, message),
        transition(s, maybe_id, message, response, t),
    ensures
        response is WonGame <==> s.stage !is Lobby && t.stage is Lobby,
        response is WonGame ==> {
            &&& s.stage is Flipping
            &&& maybe_id is Some
            &&& s.players.contains_key(maybe_id->0)
            &&& s.players[maybe_id->0].points + 1 == WINNING_POINTS
            &&& t.players[maybe_id->0].points == WINNING_POINTS
            &&& t.stage == (StageView::Lobby { winner: maybe_id })
        },
        message matches Some(ClientMessage::Pickup { player_index }) ==> maybe_id matches Some(
            id,
        ) ==> s.stage matches StageView::Flipping { required, flipped, .. } ==> (
        response is WonGame <==> {
            &&& player_index < s.id_list.len()
            &&& s.stack(player_index as int).len() > 0
            &&& s.stack(player_index as int).last() != RED_CARD
            &&& low_byte(flipped.len() + 1) == required
            &&& s.players[id].points + 1 == WINNING_POINTS
        }),
{
}

/// Points are never lost during a game, and only the sender of a pickup can win one.
pub proof fn law_points_during_a_game(
    s: GameView,
    maybe_id: Option<IDsize>,
    message: Option<ClientMessage>,
    response: ResponseView,
    t: GameView,
    id: IDsize,
)
    requires
        s.wf(),
        s.stage !is Lobby,
        can_handle(s, maybe_id, message),
        transition(s, maybe_id, message, response, t),
        s.players.contains_key(id),
    ensures
        s.players[id].points <= t.players[id].points <= s.players[id].points + 1,
        t.players[id].points != s.players[id].points ==> maybe_id == Some(id) && (
        message matches Some(ClientMessage::Pickup { .. })) && (response is WonGame
            || response is BlackCard),
{
    lemma_seats(s);
}

/// A hand shrinks by one card when its player turns over the red card, is full again when a
/// game has been won, and does not change otherwise.
pub proof fn law_hands(
    s: GameView,
    maybe_id: Option<IDsize>,
    message: Option<ClientMessage>,
    response: ResponseView,
    t: GameView,
    id: IDsize,
)
    requires
        s.wf(),
        s.stage !is Lobby,
        can_handle(s, maybe_id, message),
        transition(s, maybe_id, message, response, t),
        s.players.contains_key(id),
    ensures
        if response is WonGame {
            t.players[id].owned == full_hand()
        } else if response is RedCard && maybe_id == Some(id) {
            exists|lost: int|
                0 <= lost < s.players[id].owned.len() && t.players[id].owned
                    == #[trigger] s.players[id].owned.remove(lost)
        } else {
            t.players[id].owned == s.players[id].owned
        },
{
    lemma_seats(s);
}

/// Placing a card, bidding and passing touch no seat but the sender's.
pub proof fn law_moves_touch_only_the_sender(
    s: GameView,
    maybe_id: Option<IDsize>,
    message: ClientMessage,
    response: ResponseView,
    t: GameView,
    other: IDsize,
)
    requires
        transition(s, maybe_id, Some(message), response, t),
        message is PlaceCard || message is Bid || message is Pass,
        maybe_id != Some(other),
    ensures
        t.players.contains_key(other) <==> s.players.contains_key(other),
        s.players.contains_key(other) ==> t.players[other] == s.players[other],
{
}

/// The turn after `turns` more moves.
pub open spec fn after_turns(s: GameView, turns: nat) -> GameView
    decreases turns,
{
    if turns == 0 {
        s
    } else {
        after_turns(s, (turns - 1) as nat).turn_incremented()
    }
}

/// The turn goes around the table: after `turns` moves it is `turns` seats further on, counted
/// in a circle.
pub proof fn law_turns_go_around(s: GameView, turns: nat)
    requires
        s.players.len() > 0,
        0 <= s.current_player_index < s.players.len(),
    ensures
        after_turns(s, turns) == (GameView {
            current_player_index: (s.current_player_index + turns) % (s.players.len() as int),
            ..s
        }),
    decreases turns,
{
    let n = s.players.len() as int;
    if turns == 0 {
        vstd::arithmetic::div_mod::lemma_small_mod(s.current_player_index as nat, n as nat);
    } else {
        law_turns_go_around(s, (turns - 1) as nat);
        vstd::arithmetic::div_mod::lemma_add_mod_noop(s.current_player_index + turns - 1, 1, n);
        if n == 1 {
            assert((s.current_player_index + turns) % 1 == 0);
        } else {
            vstd::arithmetic::div_mod::lemma_small_mod(1, n as nat);
        }
    }
}

/// The seat gets a turn before the turn comes back to where it is.
pub open spec fn gets_a_turn(s: GameView, seat: int) -> bool {
    exists|turns: nat|
        turns < s.players.len() && (#[trigger] after_turns(s, turns)).current_player_index == seat
}

/// After as many moves as there are players, everyone has had a turn and it is the first
/// player's again.
pub proof fn law_a_full_circle_of_turns(s: GameView)
    requires
        s.players.len() > 0,
        0 <= s.current_player_index < s.players.len(),
    ensures
        after_turns(s, s.players.len()) == s,
        forall|seat: int| 0 <= seat < s.players.len() ==> #[trigger] gets_a_turn(s, seat),
{
    let n = s.players.len();
    law_turns_go_around(s, n);
    vstd::arithmetic::div_mod::lemma_mod_add_multiples_vanish(s.current_player_index, n as int);
    vstd::arithmetic::div_mod::lemma_small_mod(s.current_player_index as nat, n);
    assert(after_turns(s, n) == s);
    assert forall|seat: int| 0 <= seat < n implies #[trigger] gets_a_turn(s, seat) by {
        let ahead = if seat >= s.current_player_index {
            (seat - s.current_player_index) as nat
        } else {
            (seat + n - s.current_player_index) as nat
        };
        law_turns_go_around(s, ahead);
        vstd::arithmetic::div_mod::lemma_small_mod(seat as nat, n);
        if seat < s.current_player_index {
            vstd::arithmetic::div_mod::lemma_mod_add_multiples_vanish(seat, n as int);
        }
        assert(after_turns(s, ahead).current_player_index == seat);
    }
}

/// The next round begins with the player who sits after the flipper.
pub proof fn law_next_round_starts_after_the_flipper(s: GameView, flipper_seat: int)
    requires
        s.wf(),
        s.in_play(),
        0 <= flipper_seat < s.id_list.len(),
    ensures
        s.next_round(s.id_list[flipper_seat]).current_id() == (if flipper_seat + 1
            == s.id_list.len() {
            s.id_list[0]
        } else {
            s.id_list[flipper_seat + 1]
        }),
{
    let flipper = s.id_list[flipper_seat];
    lemma_seats(s);
    lemma_last_position(s.id_list, flipper);
    let n = s.players.len();
    let found = last_position(s.id_list, flipper);
    assert(s.id_list[found] == s.id_list[flipper_seat]);
    assert(found == flipper_seat);
    if flipper_seat + 1 == n {
        vstd::arithmetic::div_mod::lemma_mod_self_0(n as int);
    } else {
        vstd::arithmetic::div_mod::lemma_small_mod((flipper_seat + 1) as nat, n);
    }
}

/// The players are numbered from zero on, one number for each name in use.
pub open spec fn numbered(s: GameView) -> bool {
    &&& s.unique_names.finite()
    &&& forall|id: IDsize| #[trigger] s.players.contains_key(id) <==> id < s.unique_names.len()
}

/// As long as nobody quits, every new player gets an id of their own.
pub proof fn law_ids_are_fresh_until_someone_quits(
    s: GameView,
    maybe_id: Option<IDsize>,
    message: Option<ClientMessage>,
    response: ResponseView,
    t: GameView,
)
    requires
        DEBUG,
        s.wf(),
        numbered(s),
        can_handle(s, maybe_id, message),
        transition(s, maybe_id, message, response, t),
        message != Some(ClientMessage::Quit),
    ensures
        numbered(t),
        response matches ResponseView::ValidJoin { id } ==> !s.players.contains_key(id),
{
    if s.stage !is Lobby {
        law_players_stay_during_a_game(s, maybe_id, message, response, t);
        assert forall|id: IDsize| #[trigger] t.players.contains_key(id) <==> id
            < t.unique_names.len() by {
            assert(t.players.dom().contains(id) == s.players.dom().contains(id));
            assert(s.players.contains_key(id) <==> id < s.unique_names.len());
        }
    }
}

/// Every player plays under a name in use, and no two under the same.
pub open spec fn names_kept(s: GameView) -> bool {
    &&& forall|id: IDsize| #[trigger]
        s.players.contains_key(id) ==> s.unique_names.contains(s.players[id].name)
    &&& forall|a: IDsize, b: IDsize|
        #![trigger s.players.contains_key(a), s.players.contains_key(b)]
        s.players.contains_key(a) && s.players.contains_key(b) && a != b ==> s.players[a].name
            != s.players[b].name
}

/// No two players ever play under the same name.
pub proof fn law_names_stay_unique(
    s: GameView,
    maybe_id: Option<IDsize>,
    message: Option<ClientMessage>,
    response: ResponseView,
    t: GameView,
)
    requires
        s.wf(),
        names_kept(s),
        can_handle(s, maybe_id, message),
        transition(s, maybe_id, message, response, t),
    ensures
        names_kept(t),
{
    if s.stage !is Lobby {
        law_players_stay_during_a_game(s, maybe_id, message, response, t);
        assert forall|id: IDsize| #[trigger] t.players.contains_key(id) implies s.players.contains_key(
            id,
        ) by {
            assert(t.players.dom().contains(id) == s.players.dom().contains(id));
        }
    }
}

/// Every card of a pile exists.
pub open spec fn real_cards(cards: Seq<Cardsize>) -> bool {
    forall|i: int| 0 <= i < cards.len() ==> (#[trigger] cards[i]) <= MAX_CARD
}

/// What holds of a seat at any time: all its cards exist, the hand holds no card twice, there
/// are no more points than win a game, and bids are not kept with the player.
pub open spec fn orderly_seat(player: PlayerView) -> bool {
    &&& real_cards(player.owned)
    &&& player.owned.no_duplicates()
    &&& real_cards(player.placed)
    &&& player.points <= WINNING_POINTS
    &&& player.bid is None
}

/// What holds of a seat at a stage: hands are full and stacks empty in the lobby, nobody has
/// more than one card down while the first cards are placed and everyone has one down from the
/// turns on until the bidding ends, and passes count only from the bidding on.
pub open spec fn orderly_seat_at(stage: StageView, player: PlayerView) -> bool {
    match stage {
        StageView::Lobby { .. } => player.owned == full_hand() && player.placed.len() == 0
            && !player.passed,
        StageView::InitialCard => player.placed.len() <= 1 && !player.passed,
        StageView::Turns => player.placed.len() >= 1 && !player.passed,
        StageView::Bidding { .. } => player.placed.len() >= 1,
        StageView::Flipping { .. } => player.passed,
    }
}

/// What holds of a table in an orderly game: besides the seats, a first card is missing as long
/// as first cards are placed, a pass is missing as long as there is bidding, and no red card
/// lies among the flipped ones.
pub open spec fn orderly(s: GameView) -> bool {
    &&& forall|id: IDsize| #[trigger]
        s.players.contains_key(id) ==> orderly_seat(s.players[id]) && orderly_seat_at(
            s.stage,
            s.players[id],
        )
    &&& s.stage is InitialCard ==> !s.all_placed_one()
    &&& s.stage is Bidding ==> !s.all_passed()
    &&& s.stage matches StageView::Flipping { flipped, .. } ==> real_cards(flipped)
        && !flipped.contains(RED_CARD)
}

/// Turning over a card keeps an orderly game orderly.
proof fn lemma_pickup_orderly(
    s: GameView,
    flipper: IDsize,
    required: Bidsize,
    flipped: Seq<Cardsize>,
    id: IDsize,
    seat: int,
    response: ResponseView,
    t: GameView,
)
    requires
        s.wf(),
        orderly(s),
        s.stage == (StageView::Flipping { flipper, required, flipped }),
        0 <= seat,
        can_pick_up(s, flipper, required, flipped, id, seat),
        pickup_rule(s, flipper, required, flipped, id, seat, response, t),
    ensures
        orderly(t),
{
    lemma_seats(s);
    if seat < s.id_list.len() && s.stack(seat).len() > 0 {
        let card = s.stack(seat).last();
        let owner = s.id_list[seat];
        let taken = s.picked_up(seat);
        assert(s.players.contains_key(owner) && s.players.contains_key(id));
        if card == RED_CARD {
            let lost = choose|lost: int|
                0 <= lost < s.players[id].owned.len() && t == #[trigger] taken.lost_card(
                    id,
                    lost,
                ).next_round(flipper);
            assert(t.players.contains_key(id) && t.players[id].placed.len() == 0);
        } else if low_byte(flipped.len() + 1) != required {
            assert forall|i: int| 0 <= i < flipped.push(card).len() implies (
            #[trigger] flipped.push(card)[i]) <= MAX_CARD && flipped.push(card)[i] != RED_CARD by {
                if i < flipped.len() {
                    assert(flipped.contains(flipped[i]));
                }
            }
        } else if s.players[id].points + 1 == WINNING_POINTS {
        } else {
            assert(t.players.contains_key(id) && t.players[id].placed.len() == 0);
        }
    }
}

/// An orderly game stays orderly.
pub proof fn law_stays_orderly(
    s: GameView,
    maybe_id: Option<IDsize>,
    message: Option<ClientMessage>,
    response: ResponseView,
    t: GameView,
)
    requires
        s.wf(),
        orderly(s),
        can_handle(s, maybe_id, message),
        transition(s, maybe_id, message, response, t),
    ensures
        orderly(t),
{
    match (message, maybe_id, s.stage) {
        (Some(ClientMessage::StartGame), Some(id), StageView::Lobby { .. }) => {
            if response is GameStarted {
                assert(t.players.contains_key(id));
            }
        },
        (Some(ClientMessage::PlaceCard { card }), Some(id), StageView::Turns) => {
            lemma_seats(s);
        },
        (Some(ClientMessage::Bid { bid }), Some(id), StageView::Turns) => {
            lemma_seats(s);
            assert(s.players.contains_key(s.current_id()));
        },
        (
            Some(ClientMessage::Pickup { player_index }),
            Some(id),
            StageView::Flipping { flipper, required, flipped },
        ) => {
            lemma_pickup_orderly(
                s,
                flipper,
                required,
                flipped,
                id,
                player_index as int,
                response,
                t,
            );
        },
        _ => {},
    }
}

/// The table can come about from an empty lobby by `steps` messages.
pub open spec fn reachable(t: GameView, steps: nat) -> bool
    decreases steps,
{
    if steps == 0 {
        t == GameView::initial()
    } else {
        exists|
            s: GameView,
            maybe_id: Option<IDsize>,
            message: Option<ClientMessage>,
            response: ResponseView,
        |
            reachable(s, (steps - 1) as nat) && can_handle(s, maybe_id, message)
                && #[trigger] transition(s, maybe_id, message, response, t)
    }
}

/// Every table that comes about from an empty lobby is well formed and orderly, and keeps its
/// names.
pub proof fn law_reachable_tables(t: GameView, steps: nat)
    requires
        reachable(t, steps),
    ensures
        t.wf(),
        orderly(t),
        names_kept(t),
    decreases steps,
{
    if steps > 0 {
        let (s, maybe_id, message, response) = choose|
            s: GameView,
            maybe_id: Option<IDsize>,
            message: Option<ClientMessage>,
            response: ResponseView,
        |
            reachable(s, (steps - 1) as nat) && can_handle(s, maybe_id, message)
                && #[trigger] transition(s, maybe_id, message, response, t);
        law_reachable_tables(s, (steps - 1) as nat);
        law_stays_well_formed(s, maybe_id, message, response, t);
        law_stays_orderly(s, maybe_id, message, response, t);
        law_names_stay_unique(s, maybe_id, message, response, t);
    }
}

/// A player who looks at the table after placing a card sees the card on top of the own stack.
pub proof fn law_placed_cards_are_shown(
    s: GameView,
    id: IDsize,
    card: Cardsize,
    t: GameView,
    response: ResponseView,
    u: GameView,
)
    requires
        s.wf(),
        transition(
            s,
            Some(id),
            Some(ClientMessage::PlaceCard { card }),
            ResponseView::ValidMove,
            t,
        ),
        transition(t, Some(id), Some(ClientMessage::GetState), response, u),
    ensures
        can_handle(t, Some(id), Some(ClientMessage::GetState)),
        response is State,
        response->player_state.placed == s.players[id].placed.push(card),
        response->game_stage == t.stage,
        u == t,
{
    lemma_seats(s);
    assert(s.players.contains_key(id));
    assert(t.players.dom() =~= s.players.dom());
    assert forall|i: int| 0 <= i < t.id_list.len() implies t.players.contains_key(
        #[trigger] t.id_list[i],
    ) by {
        assert(s.players.contains_key(s.id_list[i]));
    }
}

/// Whoever holds the highest bid, or has to flip, is a player.
pub open spec fn bidder_plays(s: GameView) -> bool {
    match s.stage {
        StageView::Bidding { highest_bidder, .. } => s.players.contains_key(highest_bidder),
        StageView::Flipping { flipper, .. } => s.players.contains_key(flipper),
        _ => true,
    }
}

/// As long as only players and strangers send messages, the highest bidder is a player.
pub proof fn law_bidders_are_players(
    s: GameView,
    maybe_id: Option<IDsize>,
    message: Option<ClientMessage>,
    response: ResponseView,
    t: GameView,
)
    requires
        s.wf(),
        bidder_plays(s),
        maybe_id matches Some(id) ==> s.players.contains_key(id),
        can_handle(s, maybe_id, message),
        transition(s, maybe_id, message, response, t),
    ensures
        bidder_plays(t),
{
    if s.stage !is Lobby {
        lemma_seats(s);
        law_players_stay_during_a_game(s, maybe_id, message, response, t);
        assert forall|id: IDsize| #[trigger] s.players.contains_key(id) implies t.players.contains_key(
            id,
        ) by {
            assert(t.players.dom().contains(id));
        }
    }
}

/// During a game in which the highest bidder is a player, any message of a player can be
/// handled, but for picking up a card one seat past the last or with an empty hand.
pub proof fn law_players_are_heard_during_a_game(
    s: GameView,
    id: IDsize,
    message: Option<ClientMessage>,
)
    requires
        s.wf(),
        s.stage !is Lobby,
        bidder_plays(s),
        s.players.contains_key(id),
        message matches Some(ClientMessage::Pickup { player_index }) ==> player_index
            != s.id_list.len() && s.players[id].owned.len() > 0,
    ensures
        can_handle(s, Some(id), message),
{
    lemma_seats(s);
}

} // verus!
