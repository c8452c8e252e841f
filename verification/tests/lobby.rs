use skull::handle::{handle_message, join_as};
use skull::message::{BroadcastMessage, ClientMessage, ClientResponse};
use skull::state::{GameStage, GameState};

fn join(state: &mut GameState, name: &str) -> Option<u64> {
    let message = ClientMessage::Join { name: name.to_string() };
    match handle_message(Some(message), None, state).0 {
        ClientResponse::ValidJoin { id } => Some(id),
        ClientResponse::NameTaken => None,
        _ => panic!("neither joined nor refused"),
    }
}

fn table(names: &[&str]) -> GameState {
    let mut state = GameState::new();
    for name in names {
        assert!(join(&mut state, name).is_some());
    }
    state
}

#[test]
fn a_new_table_is_an_empty_lobby() {
    let state = GameState::new();
    assert!(matches!(state.stage, GameStage::Lobby { winner: None }));
    assert_eq!(state.players.len(), 0);
    assert_eq!(state.unique_names.len(), 0);
    assert_eq!(state.host_id, None);
    assert_eq!(state.id_list.len(), 0);
    assert_eq!(state.current_player_index, 0);
}

#[test]
fn players_are_numbered_as_they_join() {
    let mut state = GameState::new();
    assert_eq!(join(&mut state, "ann"), Some(0));
    assert_eq!(state.host_id, Some(0));
    assert_eq!(join(&mut state, "bob"), Some(1));
    assert_eq!(state.host_id, Some(0));
    let bob = &state.players[&1];
    assert_eq!(bob.name, "bob");
    assert_eq!(bob.owned, vec![0, 1, 2, 3]);
    assert!(bob.placed.is_empty());
    assert_eq!(bob.bid, None);
    assert_eq!(bob.points, 0);
    assert!(!bob.passed);
}

#[test]
fn a_name_in_use_is_refused() {
    let mut state = table(&["ann", "bob"]);
    assert_eq!(join(&mut state, "ann"), None);
    assert_eq!(state.players.len(), 2);
    assert_eq!(state.unique_names.len(), 2);
}

#[test]
fn a_player_may_join_again_under_another_name() {
    let mut state = table(&["ann"]);
    let message = ClientMessage::Join { name: "bob".to_string() };
    let (response, _) = handle_message(Some(message), Some(0), &mut state);
    assert!(matches!(response, ClientResponse::ValidJoin { id: 1 }));
}

#[test]
fn rejoining_names_the_host() {
    let mut state = table(&["ann", "bob"]);
    let (response, broadcast) =
        handle_message(Some(ClientMessage::Rejoin { id: 0 }), None, &mut state);
    assert!(matches!(response, ClientResponse::ValidRejoin { id: 0, is_host: true }));
    assert!(matches!(broadcast, BroadcastMessage::Nothing));
    let (response, _) = handle_message(Some(ClientMessage::Rejoin { id: 1 }), None, &mut state);
    assert!(matches!(response, ClientResponse::ValidRejoin { id: 1, is_host: false }));
    let (response, _) = handle_message(Some(ClientMessage::Rejoin { id: 2 }), Some(1), &mut state);
    assert!(matches!(response, ClientResponse::InvalidRequest));
}

#[test]
fn unreadable_messages_are_answered_as_such() {
    let mut state = table(&["ann"]);
    assert!(matches!(handle_message(None, None, &mut state).0, ClientResponse::InvalidJSON));
    assert!(matches!(handle_message(None, Some(0), &mut state).0, ClientResponse::InvalidJSON));
    assert_eq!(state.players.len(), 1);
}

#[test]
fn strangers_can_only_join_or_rejoin() {
    let mut state = table(&["ann"]);
    let messages = vec![
        ClientMessage::Quit,
        ClientMessage::GetState,
        ClientMessage::StartGame,
        ClientMessage::PlaceCard { card: 0 },
        ClientMessage::Bid { bid: 1 },
        ClientMessage::Pass,
        ClientMessage::Pickup { player_index: 0 },
        ClientMessage::Debug,
    ];
    for message in messages {
        let (response, _) = handle_message(Some(message), None, &mut state);
        assert!(matches!(response, ClientResponse::NotJoined));
    }
    assert!(matches!(state.stage, GameStage::Lobby { winner: None }));
    assert_eq!(state.players.len(), 1);
}

#[test]
fn a_host_who_quits_is_followed_by_another_player() {
    let mut state = table(&["ann", "bob"]);
    let (response, _) = handle_message(Some(ClientMessage::Quit), Some(0), &mut state);
    assert!(matches!(response, ClientResponse::ValidQuit));
    assert_eq!(state.host_id, Some(1));
    assert!(!state.players.contains_key(&0));
    assert!(!state.unique_names.contains(&"ann".to_string()));
    assert!(state.unique_names.contains(&"bob".to_string()));
}

#[test]
fn a_guest_who_quits_leaves_the_host_in_place() {
    let mut state = table(&["ann", "bob"]);
    handle_message(Some(ClientMessage::Quit), Some(1), &mut state);
    assert_eq!(state.host_id, Some(0));
    assert_eq!(state.players.len(), 1);
}

#[test]
fn quitting_undoes_joining() {
    let mut state = GameState::new();
    let id = join(&mut state, "ann");
    handle_message(Some(ClientMessage::Quit), id, &mut state);
    assert_eq!(state.host_id, None);
    assert_eq!(state.players.len(), 0);
    assert_eq!(state.unique_names.len(), 0);
    assert_eq!(join(&mut state, "ann"), Some(0));
}

#[test]
fn an_id_can_come_up_twice_after_someone_quit() {
    let mut state = table(&["ann", "bob"]);
    handle_message(Some(ClientMessage::Quit), Some(0), &mut state);
    assert_eq!(join(&mut state, "cid"), Some(1));
    assert_eq!(state.players.len(), 1);
    assert_eq!(state.players[&1].name, "cid");
    assert_eq!(state.unique_names.len(), 2);
    assert_eq!(state.host_id, Some(1));
}

#[test]
fn joining_under_a_given_id() {
    let mut state = table(&["ann"]);
    join_as(&mut state, "bob".to_string(), 77);
    assert_eq!(state.players[&77].name, "bob");
    assert_eq!(state.host_id, Some(0));
    assert!(state.unique_names.contains(&"bob".to_string()));
}

#[test]
fn only_the_host_starts_a_game() {
    let mut state = table(&["ann", "bob"]);
    let (response, _) = handle_message(Some(ClientMessage::StartGame), Some(1), &mut state);
    assert!(matches!(response, ClientResponse::InvalidRequest));
    assert!(matches!(state.stage, GameStage::Lobby { winner: None }));
    let (response, _) = handle_message(Some(ClientMessage::StartGame), Some(0), &mut state);
    assert!(matches!(response, ClientResponse::GameStarted));
    assert!(matches!(state.stage, GameStage::InitialCard));
}

#[test]
fn the_lobby_is_closed_during_a_game() {
    let mut state = table(&["ann", "bob"]);
    handle_message(Some(ClientMessage::StartGame), Some(0), &mut state);
    let message = ClientMessage::Join { name: "cid".to_string() };
    assert!(matches!(
        handle_message(Some(message), None, &mut state).0,
        ClientResponse::InvalidRequest
    ));
    for message in vec![ClientMessage::Quit, ClientMessage::StartGame, ClientMessage::Pass] {
        assert!(matches!(
            handle_message(Some(message), Some(0), &mut state).0,
            ClientResponse::InvalidRequest
        ));
    }
    assert_eq!(state.players.len(), 2);
}

#[test]
fn debugging_shows_the_whole_table() {
    let mut state = table(&["ann", "bob"]);
    match handle_message(Some(ClientMessage::Debug), Some(0), &mut state).0 {
        ClientResponse::Debug(shown) => {
            assert_eq!(shown.players.len(), 2);
            assert_eq!(shown.host_id, Some(0));
        }
        _ => panic!("the table was not shown"),
    }
}

#[test]
fn the_lobby_shows_no_stacks() {
    let mut state = table(&["ann"]);
    match handle_message(Some(ClientMessage::GetState), Some(0), &mut state).0 {
        ClientResponse::State {
            player_state,
            game_stage,
            current_player_index,
            players_num_cards,
        } => {
            assert_eq!(player_state.name, "ann");
            assert!(matches!(game_stage, GameStage::Lobby { winner: None }));
            assert_eq!(current_player_index, 0);
            assert!(players_num_cards.is_empty());
        }
        _ => panic!("the table was not shown"),
    }
    let (response, _) = handle_message(Some(ClientMessage::GetState), Some(9), &mut state);
    assert!(matches!(response, ClientResponse::InvalidRequest));
}
