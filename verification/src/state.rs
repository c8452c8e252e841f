//! The table: who plays, how far the game has come, whose turn it is.

use vstd::prelude::*;
use std::collections::HashMap;
use crate::names::NameSet;
use crate::player::{Bidsize, Cardsize, IDsize, PlayerState, PlayerView, Reset, WINNING_POINTS};

verus! {

/// How far the game has come.
pub enum GameStage {
    /// Nobody plays; players may come and go. `winner` won the last game.
    Lobby { winner: Option<IDsize> },
    /// Every player places a first card.
    InitialCard,
    /// In turn, players add a card or open the bidding.
    Turns,
    /// Players raise the bid or pass.
    Bidding { highest_bidder: IDsize, highest_bid: Bidsize },
    /// The cards of the winning bid are turned over.
    Flipping { flipper: IDsize, required: Bidsize, flipped: Vec<Cardsize> },
}

/// The mathematical content of a [`GameStage`].
#[verifier::ext_equal]
pub enum StageView {
    Lobby { winner: Option<IDsize> },
    InitialCard,
    Turns,
    Bidding { highest_bidder: IDsize, highest_bid: Bidsize },
    Flipping { flipper: IDsize, required: Bidsize, flipped: Seq<Cardsize> },
}

impl View for GameStage {
    type V = StageView;

    open spec fn view(&self) -> StageView {
        match *self {
            GameStage::Lobby { winner } => StageView::Lobby { winner },
            GameStage::InitialCard => StageView::InitialCard,
            GameStage::Turns => StageView::Turns,
            GameStage::Bidding { highest_bidder, highest_bid } => StageView::Bidding {
                highest_bidder,
                highest_bid,
            },
            GameStage::Flipping { flipper, required, flipped } => StageView::Flipping {
                flipper,
                required,
                flipped: flipped@,
            },
        }
    }
}

impl Clone for GameStage {
    fn clone(&self) -> (stage: GameStage)
        ensures
            stage@ == self@,
    {
        match self {
            GameStage::Lobby { winner } => GameStage::Lobby { winner: *winner },
            GameStage::InitialCard => GameStage::InitialCard,
            GameStage::Turns => GameStage::Turns,
            GameStage::Bidding { highest_bidder, highest_bid } => GameStage::Bidding {
                highest_bidder: *highest_bidder,
                highest_bid: *highest_bid,
            },
            GameStage::Flipping { flipper, required, flipped } => {
                let copy = flipped.clone();
                assert(copy@ =~= flipped@);
                GameStage::Flipping { flipper: *flipper, required: *required, flipped: copy }
            },
        }
    }
}

/// The whole table.
pub struct GameState {
    pub unique_names: NameSet,
    pub players: HashMap<IDsize, PlayerState>,
    pub stage: GameStage,
    pub host_id: Option<IDsize>,
    pub id_list: Vec<IDsize>,
    pub current_player_index: usize,
}

/// The mathematical content of a [`GameState`].
#[verifier::ext_equal]
pub struct GameView {
    /// The names in use.
    pub unique_names: Set<Seq<char>>,
    /// The players by id.
    pub players: Map<IDsize, PlayerView>,
    pub stage: StageView,
    /// The player who may start a game.
    pub host_id: Option<IDsize>,
    /// The seating order, fixed when a game starts.
    pub id_list: Seq<IDsize>,
    /// Whose turn it is, as a position in the seating order.
    pub current_player_index: int,
}

/// The players' views.
pub open spec fn player_views(players: Map<IDsize, PlayerState>) -> Map<IDsize, PlayerView> {
    players.map_values(|player: PlayerState| player@)
}

impl View for GameState {
    type V = GameView;

    open spec fn view(&self) -> GameView {
        GameView {
            unique_names: self.unique_names@,
            players: player_views(self.players@),
            stage: self.stage@,
            host_id: self.host_id,
            id_list: self.id_list@,
            current_player_index: self.current_player_index as int,
        }
    }
}

/// `i` is the last position at which `id` stands in `ids`.
pub open spec fn is_last_position(ids: Seq<IDsize>, id: IDsize, i: int) -> bool {
    &&& 0 <= i < ids.len()
    &&& ids[i] == id
    &&& forall|j: int| i < j < ids.len() ==> ids[j] != id
}

/// The last position at which `id` stands in `ids`.
pub open spec fn last_position(ids: Seq<IDsize>, id: IDsize) -> int {
    choose|i: int| is_last_position(ids, id, i)
}

impl GameView {
    /// An empty lobby.
    pub open spec fn initial() -> GameView {
        GameView {
            unique_names: Set::empty(),
            players: Map::empty(),
            stage: StageView::Lobby { winner: None },
            host_id: None,
            id_list: Seq::empty(),
            current_player_index: 0,
        }
    }

    /// `order` seats every player exactly once.
    pub open spec fn is_seating(self, order: Seq<IDsize>) -> bool {
        &&& order.no_duplicates()
        &&& order.to_set() == self.players.dom()
    }

    /// What holds while a game runs: every player has a seat, the turn is at one of the seats,
    /// and nobody has won yet.
    pub open spec fn in_play(self) -> bool {
        &&& self.is_seating(self.id_list)
        &&& 0 <= self.current_player_index < self.id_list.len()
        &&& forall|id: IDsize| #[trigger]
            self.players.contains_key(id) ==> self.players[id].points < WINNING_POINTS
    }

    /// What holds of every table: the host is a player, there is a host as soon as there is a
    /// player, and a running game is seated.
    pub open spec fn wf(self) -> bool {
        &&& self.players.dom().finite()
        &&& match self.host_id {
            Some(host) => self.players.contains_key(host),
            None => self.players.dom() == Set::<IDsize>::empty(),
        }
        &&& self.stage !is Lobby ==> self.in_play()
    }

    /// The player whose turn it is.
    pub open spec fn current_id(self) -> IDsize {
        self.id_list[self.current_player_index]
    }

    /// The table with `id`'s seat replaced by `player`.
    pub open spec fn with_player(self, id: IDsize, player: PlayerView) -> GameView {
        GameView { players: self.players.insert(id, player), ..self }
    }

    /// Every player's seat after a reset.
    pub open spec fn reset_all(self, reset: Reset) -> Map<IDsize, PlayerView> {
        self.players.map_values(|player: PlayerView| player.reset(reset))
    }

    /// A game starts: the players sit in `order` and the one at `first` begins.
    pub open spec fn game_started(self, order: Seq<IDsize>, first: int) -> GameView {
        GameView {
            stage: StageView::InitialCard,
            players: self.reset_all(Reset::GameStart),
            id_list: order,
            current_player_index: first,
            ..self
        }
    }

    /// The turn goes to the next player.
    pub open spec fn turn_incremented(self) -> GameView {
        GameView {
            current_player_index: (self.current_player_index + 1) % (self.players.len() as int),
            ..self
        }
    }

    /// The next round starts with the player after `flipper`.
    pub open spec fn next_round(self, flipper: IDsize) -> GameView {
        GameView {
            stage: StageView::InitialCard,
            players: self.reset_all(Reset::NextRound),
            current_player_index: (last_position(self.id_list, flipper) + 1) % (
            self.players.len() as int),
            ..self
        }
    }

    /// The table returns to the lobby, with `winner` as the winner of the last game.
    pub open spec fn game_won(self, winner: IDsize) -> GameView {
        GameView {
            stage: StageView::Lobby { winner: Some(winner) },
            players: self.reset_all(Reset::GameWon),
            ..self
        }
    }
}

impl GameState {
    /// What every function of this crate keeps: no name is stored twice, and the table's
    /// content is well formed.
    pub open spec fn wf(&self) -> bool {
        &&& self.unique_names.wf()
        &&& self@.wf()
    }

    /// An empty lobby.
    pub fn new() -> (state: GameState)
        ensures
            state.wf(),
            state@ == GameView::initial(),
    {
        let state = GameState {
            unique_names: NameSet::new(),
            players: HashMap::new(),
            stage: GameStage::Lobby { winner: None },
            host_id: None,
            id_list: Vec::new(),
            current_player_index: 0,
        };
        assert(state@.players =~= Map::empty());
        assert(state@ =~= GameView::initial());
        state
    }
}

} // verus!
