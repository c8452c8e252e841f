//! What clients ask and what they are told.

use vstd::prelude::*;
use crate::player::{Bidsize, Cardsize, IDsize, PlayerState, PlayerView};
use crate::state::{GameStage, GameState, GameView, StageView};

verus! {

/// What a client asks.
pub enum ClientMessage {
    Join { name: String },
    Rejoin { id: IDsize },
    Quit,
    GetState,
    StartGame,
    PlaceCard { card: Cardsize },
    Bid { bid: Bidsize },
    Pass,
    Pickup { player_index: usize },
    Debug,
}

/// What the asking client is told.
pub enum ClientResponse<'a> {
    InvalidRequest,
    InvalidJSON,
    NotJoined,
    ValidJoin { id: IDsize },
    ValidQuit,
    NameTaken,
    ValidRejoin { id: IDsize, is_host: bool },
    State {
        player_state: &'a PlayerState,
        game_stage: &'a GameStage,
        current_player_index: usize,
        players_num_cards: Vec<Cardsize>,
    },
    GameStarted,
    ValidMove,
    RedCard,
    BlackCard,
    WonGame,
    Debug(&'a GameState),
}

/// What every client is told.
pub enum BroadcastMessage {
    Nothing,
}

/// The mathematical content of a [`ClientResponse`].
#[verifier::ext_equal]
pub enum ResponseView {
    InvalidRequest,
    InvalidJSON,
    NotJoined,
    ValidJoin { id: IDsize },
    ValidQuit,
    NameTaken,
    ValidRejoin { id: IDsize, is_host: bool },
    State {
        player_state: PlayerView,
        game_stage: StageView,
        current_player_index: int,
        players_num_cards: Seq<Cardsize>,
    },
    GameStarted,
    ValidMove,
    RedCard,
    BlackCard,
    WonGame,
    Debug(GameView),
}

impl<'a> View for ClientResponse<'a> {
    type V = ResponseView;

    open spec fn view(&self) -> ResponseView {
        match *self {
            ClientResponse::InvalidRequest => ResponseView::InvalidRequest,
            ClientResponse::InvalidJSON => ResponseView::InvalidJSON,
            ClientResponse::NotJoined => ResponseView::NotJoined,
            ClientResponse::ValidJoin { id } => ResponseView::ValidJoin { id },
            ClientResponse::ValidQuit => ResponseView::ValidQuit,
            ClientResponse::NameTaken => ResponseView::NameTaken,
            ClientResponse::ValidRejoin { id, is_host } => ResponseView::ValidRejoin {
                id,
                is_host,
            },
            ClientResponse::State {
                player_state,
                game_stage,
                current_player_index,
                players_num_cards,
            } => ResponseView::State {
                player_state: player_state@,
                game_stage: game_stage@,
                current_player_index: current_player_index as int,
                players_num_cards: players_num_cards@,
            },
            ClientResponse::GameStarted => ResponseView::GameStarted,
            ClientResponse::ValidMove => ResponseView::ValidMove,
            ClientResponse::RedCard => ResponseView::RedCard,
            ClientResponse::BlackCard => ResponseView::BlackCard,
            ClientResponse::WonGame => ResponseView::WonGame,
            ClientResponse::Debug(state) => ResponseView::Debug(state@),
        }
    }
}

} // verus!
