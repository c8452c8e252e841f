use skull::handle::settle_red;
use skull::player::{PlayerState, Reset};
use skull::rounds::{
    increment_turn, start_game, start_game_with, start_next_game, start_next_round,
};
use skull::state::{GameStage, GameState};

fn used_player(name: &str) -> PlayerState {
    PlayerState {
        name: name.to_string(),
        owned: vec![0, 3],
        placed: vec![1, 0],
        bid: Some(2),
        points: 1,
        passed: true,
    }
}

fn used_table(ids: Vec<u64>) -> GameState {
    let mut state = GameState::new();
    for id in ids.iter() {
        state.players.insert(*id, used_player("someone"));
    }
    state.id_list = ids;
    state.stage = GameStage::Turns;
    state
}

#[test]
fn the_turn_goes_around() {
    let mut state = used_table(vec![5, 6, 7]);
    increment_turn(&mut state);
    assert_eq!(state.current_player_index, 1);
    increment_turn(&mut state);
    assert_eq!(state.current_player_index, 2);
    increment_turn(&mut state);
    assert_eq!(state.current_player_index, 0);
}

#[test]
fn a_game_starts_in_a_given_order() {
    let mut state = used_table(vec![5, 6, 7]);
    start_game_with(&mut state, vec![7, 5, 6], 2);
    assert!(matches!(state.stage, GameStage::InitialCard));
    assert_eq!(state.id_list, vec![7, 5, 6]);
    assert_eq!(state.current_player_index, 2);
    let player = &state.players[&6];
    assert_eq!(player.points, 0);
    assert_eq!(player.bid, None);
    assert!(player.placed.is_empty());
    assert_eq!(player.owned, vec![0, 3]);
    assert!(player.passed);
    assert_eq!(player.name, "someone");
}

#[test]
fn a_game_seats_everyone_once_and_someone_begins() {
    for _ in 0..50 {
        let mut state = used_table(vec![3, 1, 2]);
        start_game(&mut state);
        let mut seated = state.id_list.clone();
        seated.sort();
        assert_eq!(seated, vec![1, 2, 3]);
        assert!(state.current_player_index < 3);
    }
    let mut alone = used_table(vec![4]);
    start_game(&mut alone);
    assert_eq!(alone.id_list, vec![4]);
    assert_eq!(alone.current_player_index, 0);
}

#[test]
fn the_next_round_starts_after_the_flipper() {
    let mut state = used_table(vec![5, 6, 7]);
    start_next_round(&mut state, &5);
    assert_eq!(state.current_player_index, 1);
    assert!(matches!(state.stage, GameStage::InitialCard));
    let player = &state.players[&7];
    assert!(player.placed.is_empty());
    assert_eq!(player.bid, None);
    assert!(!player.passed);
    assert_eq!(player.points, 1);
    assert_eq!(player.owned, vec![0, 3]);
    start_next_round(&mut state, &7);
    assert_eq!(state.current_player_index, 0);
}

#[test]
fn a_flipper_who_sits_twice_counts_at_the_last_seat() {
    let mut state = used_table(vec![5, 6, 7, 8]);
    state.id_list = vec![5, 6, 5, 8];
    start_next_round(&mut state, &5);
    assert_eq!(state.current_player_index, 3);
}

#[test]
fn a_won_game_returns_to_the_lobby() {
    let mut state = used_table(vec![5, 6]);
    start_next_game(&mut state, 6);
    assert!(matches!(state.stage, GameStage::Lobby { winner: Some(6) }));
    let player = &state.players[&5];
    assert_eq!(player.owned, vec![0, 1, 2, 3]);
    assert!(player.placed.is_empty());
    assert_eq!(player.bid, None);
    assert!(!player.passed);
    assert_eq!(player.points, 1);
    assert_eq!(state.id_list, vec![5, 6]);
}

#[test]
fn the_red_card_costs_the_chosen_card() {
    let mut state = used_table(vec![5, 6]);
    settle_red(&mut state, 6, 5, 1);
    assert_eq!(state.players[&6].owned, vec![0]);
    assert_eq!(state.players[&5].owned, vec![0, 3]);
    assert_eq!(state.current_player_index, 1);
    assert!(matches!(state.stage, GameStage::InitialCard));
}

#[test]
fn a_seat_is_reset() {
    let mut player = used_player("ann");
    player.reset(Reset::NextRound);
    assert!(!player.passed);
    assert_eq!(player.points, 1);
    player.reset(Reset::GameWon);
    assert_eq!(player.owned, vec![0, 1, 2, 3]);
    player.reset(Reset::GameStart);
    assert_eq!(player.points, 0);
}
