//! What each message does to the table, and what its sender is told.
//!
//! A message is described by a relation between the table before it, the response, and the
//! table after it. Chance enters in three places only: the id of a new player when ids are
//! drawn, the seating of a new game, and the card that a player loses to the red card. The
//! successor of a host who quits is any of the players left.

use vstd::prelude::*;
use crate::message::{ClientMessage, ResponseView};
use crate::player::{Bidsize, Cardsize, IDsize, PlayerView};
use crate::player::{MAX_CARD, RED_CARD, WINNING_POINTS};
use crate::state::{GameView, StageView};

verus! {

/// Numbers the players in the order of the names in use, instead of drawing their ids, and
/// lets any client see the whole table.
pub const DEBUG: bool = true;

/// A number as it arrives in one byte: only its low eight bits.
pub open spec fn low_byte(n: nat) -> u8 {
    (n % 256) as u8
}

impl GameView {
    /// `id` may be given to a new player.
    pub open spec fn is_new_id(self, id: IDsize) -> bool {
        if DEBUG {
            id == self.unique_names.len()
        } else {
            !self.players.contains_key(id)
        }
    }

    /// A player joins as `id` under `name`. Whoever is alone at the table is the host.
    pub open spec fn joined(self, id: IDsize, name: Seq<char>) -> GameView {
        let players = self.players.insert(id, PlayerView::joined(name));
        GameView {
            unique_names: self.unique_names.insert(name),
            players,
            host_id: if players.len() == 1 {
                Some(id)
            } else {
                self.host_id
            },
            ..self
        }
    }

    /// `host` may be the host once `id` has left: a host who leaves is followed by any of the
    /// others, if there are others, and nobody else's leaving changes the host.
    pub open spec fn is_host_after(self, id: IDsize, host: Option<IDsize>) -> bool {
        if self.host_id == Some(id) {
            match host {
                Some(successor) => successor != id && self.players.contains_key(successor),
                None => self.players.dom() == set![id],
            }
        } else {
            host == self.host_id
        }
    }

    /// `id` leaves, and `host` is the host from then on.
    pub open spec fn quit(self, id: IDsize, host: Option<IDsize>) -> GameView {
        GameView {
            unique_names: self.unique_names.remove(self.players[id].name),
            players: self.players.remove(id),
            host_id: host,
            ..self
        }
    }

    /// How many cards lie in front of each player, in seating order.
    pub open spec fn num_cards(self) -> Seq<Cardsize> {
        self.id_list.map_values(|id: IDsize| low_byte(self.players[id].placed.len()))
    }

    /// What `id` sees of the table.
    pub open spec fn seen_by(self, id: IDsize) -> ResponseView {
        ResponseView::State {
            player_state: self.players[id],
            game_stage: self.stage,
            current_player_index: self.current_player_index,
            players_num_cards: self.num_cards(),
        }
    }

    /// `id` puts `card` on top of the own stack.
    pub open spec fn placed(self, id: IDsize, card: Cardsize) -> GameView {
        let player = self.players[id];
        self.with_player(id, PlayerView { placed: player.placed.push(card), ..player })
    }

    /// Every player has placed exactly one card.
    pub open spec fn all_placed_one(self) -> bool {
        forall|id: IDsize| #[trigger]
            self.players.contains_key(id) ==> self.players[id].placed.len() == 1
    }

    /// `id` places a first card; the turns begin when everyone has.
    pub open spec fn first_card(self, id: IDsize, card: Cardsize) -> GameView {
        let placed = self.placed(id, card);
        if placed.all_placed_one() {
            GameView { stage: StageView::Turns, ..placed }
        } else {
            placed
        }
    }

    /// `id` holds the highest bid.
    pub open spec fn bid(self, id: IDsize, bid: Bidsize) -> GameView {
        GameView {
            stage: StageView::Bidding { highest_bidder: id, highest_bid: bid },
            ..self
        }
    }

    /// Every player has passed.
    pub open spec fn all_passed(self) -> bool {
        forall|id: IDsize| #[trigger] self.players.contains_key(id) ==> self.players[id].passed
    }

    /// `id` passes; when everyone has, the highest bidder has to flip as many cards as were bid.
    pub open spec fn passed(
        self,
        id: IDsize,
        highest_bidder: IDsize,
        highest_bid: Bidsize,
    ) -> GameView {
        let passed = self.with_player(id, PlayerView { passed: true, ..self.players[id] });
        if passed.all_passed() {
            GameView {
                stage: StageView::Flipping {
                    flipper: highest_bidder,
                    required: highest_bid,
                    flipped: Seq::empty(),
                },
                ..passed
            }
        } else {
            passed
        }
    }

    /// The stack of the player at `seat`.
    pub open spec fn stack(self, seat: int) -> Seq<Cardsize> {
        self.players[self.id_list[seat]].placed
    }

    /// The top card of the player at `seat` is taken away.
    pub open spec fn picked_up(self, seat: int) -> GameView {
        let player = self.players[self.id_list[seat]];
        self.with_player(
            self.id_list[seat],
            PlayerView { placed: player.placed.drop_last(), ..player },
        )
    }

    /// `id` loses the card at position `lost` of the own hand.
    pub open spec fn lost_card(self, id: IDsize, lost: int) -> GameView {
        let player = self.players[id];
        self.with_player(id, PlayerView { owned: player.owned.remove(lost), ..player })
    }

    /// `id` wins a point.
    pub open spec fn scored(self, id: IDsize) -> GameView {
        let player = self.players[id];
        self.with_player(id, PlayerView { points: (player.points + 1) as u8, ..player })
    }

    /// `card` lies open with the cards in `flipped`.
    pub open spec fn flipped_on(
        self,
        flipper: IDsize,
        required: Bidsize,
        flipped: Seq<Cardsize>,
        card: Cardsize,
    ) -> GameView {
        GameView {
            stage: StageView::Flipping { flipper, required, flipped: flipped.push(card) },
            ..self
        }
    }
}

/// The request is refused and the table stays as it is.
pub open spec fn refused(s: GameView, response: ResponseView, t: GameView) -> bool {
    response == ResponseView::InvalidRequest && t == s
}

/// Someone asks to join under `name`: a name in use is refused.
pub open spec fn join_rule(
    s: GameView,
    name: Seq<char>,
    response: ResponseView,
    t: GameView,
) -> bool {
    if s.unique_names.contains(name) {
        response == ResponseView::NameTaken && t == s
    } else {
        response matches ResponseView::ValidJoin { id } && s.is_new_id(id) && t == s.joined(
            id,
            name,
        )
    }
}

/// Someone claims to be `id`.
pub open spec fn rejoin_rule(s: GameView, id: IDsize, response: ResponseView, t: GameView) -> bool {
    if s.players.contains_key(id) {
        response == (ResponseView::ValidRejoin { id, is_host: s.host_id == Some(id) }) && t == s
    } else {
        refused(s, response, t)
    }
}

/// `id` leaves the lobby.
pub open spec fn quit_rule(s: GameView, id: IDsize, response: ResponseView, t: GameView) -> bool {
    response == ResponseView::ValidQuit && s.is_host_after(id, t.host_id) && t == s.quit(
        id,
        t.host_id,
    )
}

/// `id` looks at the table.
pub open spec fn get_state_rule(
    s: GameView,
    id: IDsize,
    response: ResponseView,
    t: GameView,
) -> bool {
    if s.players.contains_key(id) {
        response == s.seen_by(id) && t == s
    } else {
        refused(s, response, t)
    }
}

/// `id` asks to start a game, which is the host's to do.
pub open spec fn start_game_rule(
    s: GameView,
    id: IDsize,
    response: ResponseView,
    t: GameView,
) -> bool {
    if s.host_id == Some(id) {
        &&& response == ResponseView::GameStarted
        &&& s.is_seating(t.id_list)
        &&& 0 <= t.current_player_index < t.id_list.len()
        &&& t == s.game_started(t.id_list, t.current_player_index)
    } else {
        refused(s, response, t)
    }
}

/// `id` places a first card.
pub open spec fn first_card_rule(
    s: GameView,
    id: IDsize,
    card: Cardsize,
    response: ResponseView,
    t: GameView,
) -> bool {
    if card <= MAX_CARD && s.players.contains_key(id) && s.players[id].placed.len() == 0 {
        response == ResponseView::ValidMove && t == s.first_card(id, card)
    } else {
        refused(s, response, t)
    }
}

/// `id` adds a card, which takes the turn.
pub open spec fn add_card_rule(
    s: GameView,
    id: IDsize,
    card: Cardsize,
    response: ResponseView,
    t: GameView,
) -> bool {
    if card <= MAX_CARD && id == s.current_id() {
        response == ResponseView::ValidMove && t == s.placed(id, card).turn_incremented()
    } else {
        refused(s, response, t)
    }
}

/// `id` opens the bidding, which takes the turn.
pub open spec fn open_bid_rule(
    s: GameView,
    id: IDsize,
    bid: Bidsize,
    response: ResponseView,
    t: GameView,
) -> bool {
    if id == s.current_id() {
        response == ResponseView::ValidMove && t == s.bid(id, bid)
    } else {
        refused(s, response, t)
    }
}

/// `id` tops the bid.
pub open spec fn raise_bid_rule(
    s: GameView,
    highest_bid: Bidsize,
    id: IDsize,
    bid: Bidsize,
    response: ResponseView,
    t: GameView,
) -> bool {
    if bid > highest_bid {
        response == ResponseView::ValidMove && t == s.bid(id, bid)
    } else {
        refused(s, response, t)
    }
}

/// `id` leaves the bidding.
pub open spec fn pass_rule(
    s: GameView,
    highest_bidder: IDsize,
    highest_bid: Bidsize,
    id: IDsize,
    response: ResponseView,
    t: GameView,
) -> bool {
    if s.players.contains_key(id) {
        response == ResponseView::ValidMove && t == s.passed(id, highest_bidder, highest_bid)
    } else {
        refused(s, response, t)
    }
}

/// `id` turns over the top card of the player at `seat`. The red card costs `id` a card and
/// ends the round. A black card joins the flipped ones; the one that makes up the required
/// number earns `id` a point and ends the round, or the game if it was the last point needed.
pub open spec fn pickup_rule(
    s: GameView,
    flipper: IDsize,
    required: Bidsize,
    flipped: Seq<Cardsize>,
    id: IDsize,
    seat: int,
    response: ResponseView,
    t: GameView,
) -> bool {
    if seat >= s.id_list.len() || s.stack(seat).len() == 0 {
        refused(s, response, t)
    } else {
        let card = s.stack(seat).last();
        let taken = s.picked_up(seat);
        if card == RED_CARD {
            &&& response == ResponseView::RedCard
            &&& exists|lost: int|
                0 <= lost < s.players[id].owned.len() && t == #[trigger] taken.lost_card(
                    id,
                    lost,
                ).next_round(flipper)
        } else if low_byte(flipped.len() + 1) != required {
            &&& response == ResponseView::BlackCard
            &&& t == taken.flipped_on(flipper, required, flipped, card)
        } else if s.players[id].points + 1 == WINNING_POINTS {
            &&& response == ResponseView::WonGame
            &&& t == taken.scored(id).game_won(id)
        } else {
            &&& response == ResponseView::BlackCard
            &&& t == taken.scored(id).next_round(flipper)
        }
    }
}

/// Someone asks to see the whole table.
pub open spec fn debug_rule(s: GameView, response: ResponseView, t: GameView) -> bool {
    if DEBUG {
        response == ResponseView::Debug(s) && t == s
    } else {
        refused(s, response, t)
    }
}

/// What a readable message from the player `id` does. What a stage has no rule for is refused.
pub open spec fn player_rule(
    s: GameView,
    id: IDsize,
    message: ClientMessage,
    response: ResponseView,
    t: GameView,
) -> bool {
    match (message, s.stage) {
        (ClientMessage::Join { name }, StageView::Lobby { .. }) => join_rule(
            s,
            name@,
            response,
            t,
        ),
        (ClientMessage::Rejoin { id: claimed }, _) => rejoin_rule(s, claimed, response, t),
        (ClientMessage::Quit, StageView::Lobby { .. }) => quit_rule(s, id, response, t),
        (ClientMessage::GetState, _) => get_state_rule(s, id, response, t),
        (ClientMessage::StartGame, StageView::Lobby { .. }) => start_game_rule(
            s,
            id,
            response,
            t,
        ),
        (ClientMessage::PlaceCard { card }, StageView::InitialCard) => first_card_rule(
            s,
            id,
            card,
            response,
            t,
        ),
        (ClientMessage::PlaceCard { card }, StageView::Turns) => add_card_rule(
            s,
            id,
            card,
            response,
            t,
        ),
        (ClientMessage::Bid { bid }, StageView::Turns) => open_bid_rule(s, id, bid, response, t),
        (ClientMessage::Bid { bid }, StageView::Bidding { highest_bid, .. }) => raise_bid_rule(
            s,
            highest_bid,
            id,
            bid,
            response,
            t,
        ),
        (
            ClientMessage::Pass,
            StageView::Bidding { highest_bidder, highest_bid },
        ) => pass_rule(s, highest_bidder, highest_bid, id, response, t),
        (
            ClientMessage::Pickup { player_index },
            StageView::Flipping { flipper, required, flipped },
        ) => pickup_rule(
            s,
            flipper,
            required,
            flipped,
            id,
            player_index as int,
            response,
            t,
        ),
        (ClientMessage::Debug, _) => debug_rule(s, response, t),
        _ => refused(s, response, t),
    }
}

/// What a message does that comes from someone who has not joined.
pub open spec fn stranger_rule(
    s: GameView,
    message: ClientMessage,
    response: ResponseView,
    t: GameView,
) -> bool {
    match (message, s.stage) {
        (ClientMessage::Join { name }, StageView::Lobby { .. }) => join_rule(
            s,
            name@,
            response,
            t,
        ),
        (ClientMessage::Join { .. }, _) => refused(s, response, t),
        (ClientMessage::Rejoin { id }, _) => rejoin_rule(s, id, response, t),
        _ => response == ResponseView::NotJoined && t == s,
    }
}

/// What a message does: `message` is `None` if it could not be read, and `maybe_id` is `None`
/// if its sender has not joined.
pub open spec fn transition(
    s: GameView,
    maybe_id: Option<IDsize>,
    message: Option<ClientMessage>,
    response: ResponseView,
    t: GameView,
) -> bool {
    match (message, maybe_id) {
        (None, _) => response == ResponseView::InvalidJSON && t == s,
        (Some(message), None) => stranger_rule(s, message, response, t),
        (Some(message), Some(id)) => player_rule(s, id, message, response, t),
    }
}

/// `id` can turn over the card at `seat`: the seat is not the one just past the last, and if
/// there is a card, `id` is a player, has a card to lose if it is red, and the flipper sits at
/// the table if the round goes on from there.
pub open spec fn can_pick_up(
    s: GameView,
    flipper: IDsize,
    required: Bidsize,
    flipped: Seq<Cardsize>,
    id: IDsize,
    seat: int,
) -> bool {
    &&& seat != s.id_list.len()
    &&& seat < s.id_list.len() && s.stack(seat).len() > 0 ==> {
        &&& s.players.contains_key(id)
        &&& if s.stack(seat).last() == RED_CARD {
            s.players[id].owned.len() > 0 && s.players.contains_key(flipper)
        } else {
            low_byte(flipped.len() + 1) == required && s.players[id].points + 1 != WINNING_POINTS
                ==> s.players.contains_key(flipper)
        }
    }
}

/// The table has what it takes to handle a message: someone who quits is a player, the seating
/// that a player looks at names players only, and a card that is picked up can be settled.
pub open spec fn can_handle(
    s: GameView,
    maybe_id: Option<IDsize>,
    message: Option<ClientMessage>,
) -> bool {
    match (message, maybe_id, s.stage) {
        (Some(ClientMessage::Quit), Some(id), StageView::Lobby { .. }) => s.players.contains_key(
            id,
        ),
        (Some(ClientMessage::GetState), Some(id), _) => s.players.contains_key(id) ==> (
        forall|i: int|
            0 <= i < s.id_list.len() ==> s.players.contains_key(#[trigger] s.id_list[i])),
        (
            Some(ClientMessage::Pickup { player_index }),
            Some(id),
            StageView::Flipping { flipper, required, flipped },
        ) => can_pick_up(s, flipper, required, flipped, id, player_index as int),
        _ => true,
    }
}

} // verus!
