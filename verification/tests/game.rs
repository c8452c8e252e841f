use skull::handle::handle_message;
use skull::message::{ClientMessage, ClientResponse};
use skull::rounds::start_game_with;
use skull::state::{GameStage, GameState};

#[derive(Debug, PartialEq)]
enum Said {
    Invalid,
    Moved,
    Red,
    Black,
    Won,
}

fn say(state: &mut GameState, id: u64, message: ClientMessage) -> Said {
    match handle_message(Some(message), Some(id), state).0 {
        ClientResponse::InvalidRequest => Said::Invalid,
        ClientResponse::ValidMove => Said::Moved,
        ClientResponse::RedCard => Said::Red,
        ClientResponse::BlackCard => Said::Black,
        ClientResponse::WonGame => Said::Won,
        _ => panic!("no answer to a move"),
    }
}

fn place(state: &mut GameState, id: u64, card: u8) -> Said {
    say(state, id, ClientMessage::PlaceCard { card })
}

fn bid(state: &mut GameState, id: u64, bid: u8) -> Said {
    say(state, id, ClientMessage::Bid { bid })
}

fn pickup(state: &mut GameState, id: u64, player_index: usize) -> Said {
    say(state, id, ClientMessage::Pickup { player_index })
}

fn stacks(state: &mut GameState, id: u64) -> Vec<u8> {
    match handle_message(Some(ClientMessage::GetState), Some(id), state).0 {
        ClientResponse::State { players_num_cards, .. } => players_num_cards,
        _ => panic!("the table was not shown"),
    }
}

/// Ann (0) and Bob (1) sit in this order, and Ann begins.
fn started() -> GameState {
    let mut state = GameState::new();
    for name in ["ann", "bob"] {
        handle_message(Some(ClientMessage::Join { name: name.to_string() }), None, &mut state);
    }
    start_game_with(&mut state, vec![0, 1], 0);
    state
}

/// Both have one card down: Ann `ann`, Bob `bob`.
fn in_turns(ann: u8, bob: u8) -> GameState {
    let mut state = started();
    assert_eq!(place(&mut state, 0, ann), Said::Moved);
    assert_eq!(place(&mut state, 1, bob), Said::Moved);
    state
}

/// Ann has to flip `required` cards.
fn flipping(ann: u8, bob: u8, required: u8) -> GameState {
    let mut state = in_turns(ann, bob);
    assert_eq!(bid(&mut state, 0, required), Said::Moved);
    assert_eq!(say(&mut state, 0, ClientMessage::Pass), Said::Moved);
    assert_eq!(say(&mut state, 1, ClientMessage::Pass), Said::Moved);
    state
}

#[test]
fn everyone_places_one_first_card() {
    let mut state = started();
    assert_eq!(place(&mut state, 0, 4), Said::Invalid);
    assert_eq!(place(&mut state, 9, 1), Said::Invalid);
    assert_eq!(bid(&mut state, 0, 1), Said::Invalid);
    assert_eq!(place(&mut state, 0, 3), Said::Moved);
    assert!(matches!(state.stage, GameStage::InitialCard));
    assert_eq!(place(&mut state, 0, 2), Said::Invalid);
    assert_eq!(stacks(&mut state, 0), vec![1, 0]);
    assert_eq!(place(&mut state, 1, 0), Said::Moved);
    assert!(matches!(state.stage, GameStage::Turns));
    assert_eq!(state.players[&0].placed, vec![3]);
    assert_eq!(state.players[&1].placed, vec![0]);
}

#[test]
fn cards_are_added_in_turn() {
    let mut state = in_turns(1, 2);
    assert_eq!(place(&mut state, 1, 3), Said::Invalid);
    assert_eq!(place(&mut state, 0, 4), Said::Invalid);
    assert_eq!(place(&mut state, 0, 3), Said::Moved);
    assert_eq!(state.current_player_index, 1);
    assert_eq!(place(&mut state, 0, 3), Said::Invalid);
    assert_eq!(place(&mut state, 1, 3), Said::Moved);
    assert_eq!(state.current_player_index, 0);
    assert_eq!(stacks(&mut state, 1), vec![2, 2]);
    assert_eq!(state.players[&0].placed, vec![1, 3]);
}

#[test]
fn the_bidding_is_opened_in_turn_and_bids_rise() {
    let mut state = in_turns(1, 2);
    assert_eq!(bid(&mut state, 1, 1), Said::Invalid);
    assert_eq!(bid(&mut state, 0, 1), Said::Moved);
    assert_eq!(bid(&mut state, 1, 1), Said::Invalid);
    assert_eq!(bid(&mut state, 1, 2), Said::Moved);
    assert!(matches!(
        state.stage,
        GameStage::Bidding { highest_bidder: 1, highest_bid: 2 }
    ));
    assert_eq!(place(&mut state, 0, 1), Said::Invalid);
}

#[test]
fn the_flipping_starts_when_all_have_passed() {
    let mut state = in_turns(1, 2);
    assert_eq!(bid(&mut state, 0, 2), Said::Moved);
    assert_eq!(say(&mut state, 9, ClientMessage::Pass), Said::Invalid);
    assert_eq!(say(&mut state, 1, ClientMessage::Pass), Said::Moved);
    assert!(matches!(state.stage, GameStage::Bidding { .. }));
    assert_eq!(say(&mut state, 0, ClientMessage::Pass), Said::Moved);
    match &state.stage {
        GameStage::Flipping { flipper, required, flipped } => {
            assert_eq!(*flipper, 0);
            assert_eq!(*required, 2);
            assert!(flipped.is_empty());
        }
        _ => panic!("nobody flips"),
    }
}

#[test]
fn a_pickup_needs_a_card() {
    let mut state = flipping(1, 2, 3);
    assert_eq!(pickup(&mut state, 0, 3), Said::Invalid);
    assert_eq!(pickup(&mut state, 0, 1), Said::Black);
    assert_eq!(pickup(&mut state, 0, 1), Said::Invalid);
    match &state.stage {
        GameStage::Flipping { flipped, .. } => assert_eq!(*flipped, vec![2]),
        _ => panic!("nobody flips"),
    }
    assert_eq!(stacks(&mut state, 0), vec![1, 0]);
}

#[test]
fn the_red_card_costs_one_card_and_ends_the_round() {
    let mut state = flipping(1, 0, 1);
    assert_eq!(pickup(&mut state, 0, 1), Said::Red);
    assert_eq!(state.players[&0].owned.len(), 3);
    assert_eq!(state.players[&1].owned, vec![0, 1, 2, 3]);
    assert_eq!(state.players[&0].points, 0);
    assert!(matches!(state.stage, GameStage::InitialCard));
    assert_eq!(state.current_player_index, 1);
    assert!(state.players[&1].placed.is_empty());
    assert!(!state.players[&1].passed);
}

#[test]
fn the_last_card_can_be_lost() {
    let mut state = flipping(0, 2, 1);
    state.players.get_mut(&0).unwrap().owned = vec![3];
    assert_eq!(pickup(&mut state, 0, 0), Said::Red);
    assert!(state.players[&0].owned.is_empty());
}

#[test]
fn the_top_card_is_turned_over_first() {
    let mut state = in_turns(0, 2);
    assert_eq!(place(&mut state, 0, 3), Said::Moved);
    assert_eq!(bid(&mut state, 1, 3), Said::Moved);
    assert_eq!(say(&mut state, 0, ClientMessage::Pass), Said::Moved);
    assert_eq!(say(&mut state, 1, ClientMessage::Pass), Said::Moved);
    assert_eq!(pickup(&mut state, 1, 0), Said::Black);
    assert_eq!(pickup(&mut state, 1, 0), Said::Red);
    assert_eq!(state.current_player_index, 0);
}

#[test]
fn the_second_point_wins_the_game() {
    let mut state = flipping(1, 2, 1);
    assert_eq!(pickup(&mut state, 0, 0), Said::Black);
    assert_eq!(state.players[&0].points, 1);
    assert!(matches!(state.stage, GameStage::InitialCard));
    assert_eq!(state.current_player_index, 1);

    assert_eq!(place(&mut state, 0, 1), Said::Moved);
    assert_eq!(place(&mut state, 1, 2), Said::Moved);
    assert_eq!(bid(&mut state, 1, 1), Said::Moved);
    assert_eq!(bid(&mut state, 0, 2), Said::Moved);
    assert_eq!(say(&mut state, 0, ClientMessage::Pass), Said::Moved);
    assert_eq!(say(&mut state, 1, ClientMessage::Pass), Said::Moved);
    assert_eq!(pickup(&mut state, 0, 0), Said::Black);
    assert_eq!(pickup(&mut state, 0, 1), Said::Won);
    assert!(matches!(state.stage, GameStage::Lobby { winner: Some(0) }));
    assert_eq!(state.players[&0].points, 2);
    assert_eq!(state.players[&0].owned, vec![0, 1, 2, 3]);

    let (response, _) = handle_message(Some(ClientMessage::StartGame), Some(0), &mut state);
    assert!(matches!(response, ClientResponse::GameStarted));
    assert_eq!(state.players[&0].points, 0);
}

#[test]
fn a_stack_of_256_cards_shows_as_none() {
    let mut state = in_turns(1, 2);
    state.players.get_mut(&0).unwrap().placed = vec![1; 256];
    state.players.get_mut(&1).unwrap().placed = vec![1; 257];
    assert_eq!(stacks(&mut state, 0), vec![0, 1]);
}

#[test]
fn a_bid_of_none_is_met_by_256_cards() {
    let mut state = flipping(1, 2, 0);
    assert_eq!(pickup(&mut state, 0, 0), Said::Black);
    assert_eq!(state.players[&0].points, 0);
    state.stage = GameStage::Flipping { flipper: 0, required: 0, flipped: vec![1; 255] };
    assert_eq!(pickup(&mut state, 0, 1), Said::Black);
    assert_eq!(state.players[&0].points, 1);
}

#[test]
fn a_bid_from_outside_the_table_stands() {
    let mut state = in_turns(1, 2);
    assert_eq!(bid(&mut state, 0, 1), Said::Moved);
    assert_eq!(bid(&mut state, 9, 2), Said::Moved);
    assert!(matches!(
        state.stage,
        GameStage::Bidding { highest_bidder: 9, highest_bid: 2 }
    ));
}

#[test]
fn a_player_sees_the_placed_card() {
    let mut state = started();
    assert_eq!(place(&mut state, 1, 2), Said::Moved);
    match handle_message(Some(ClientMessage::GetState), Some(1), &mut state).0 {
        ClientResponse::State {
            player_state,
            game_stage,
            current_player_index,
            players_num_cards,
        } => {
            assert_eq!(player_state.placed, vec![2]);
            assert!(matches!(game_stage, GameStage::InitialCard));
            assert_eq!(current_player_index, 0);
            assert_eq!(players_num_cards, vec![0, 1]);
        }
        _ => panic!("the table was not shown"),
    }
}

#[test]
fn players_and_seats_stay_during_a_game() {
    let mut state = flipping(1, 0, 1);
    assert_eq!(pickup(&mut state, 0, 1), Said::Red);
    assert_eq!(state.id_list, vec![0, 1]);
    assert_eq!(state.host_id, Some(0));
    assert_eq!(state.players[&0].name, "ann");
    assert_eq!(state.players[&1].name, "bob");
    assert_eq!(state.unique_names.len(), 2);
}
