use circle_mover::client::{
    input_for_next_tick, lobby_state_after, GameState, LobbyState, LOCAL_PLAYER_ID,
};
use circle_mover::shared_data::{Input, InputType, ServerNetworkMessage};
use circle_mover::sim::game::{Game, Point};
use circle_mover::time::Timestamp;
use std::time::Duration;

#[test]
fn a_lobby_confirmation_puts_the_client_in_the_lobby() {
    let message =
        ServerNetworkMessage::lobby_joined("alpha".to_string(), vec!["someone".to_string()]);
    assert_eq!(
        lobby_state_after(LobbyState::NotJoined, message),
        LobbyState::Joined { name: "alpha".to_string(), players: vec![] }
    );
}

#[test]
fn other_messages_leave_the_lobby_state() {
    let joined = LobbyState::Joined { name: "alpha".to_string(), players: vec![] };
    let start = ServerNetworkMessage::synchronized_game_start(Timestamp { seconds: 1, nanos: 0 });
    assert_eq!(lobby_state_after(joined.clone(), start.clone()), joined);
    assert_eq!(lobby_state_after(LobbyState::NotJoined, start), LobbyState::NotJoined);
    let input = ServerNetworkMessage::InputMessage(Input {
        for_tick: 0,
        player_id: 0,
        input_type: InputType::CreateCircle { x: 0, y: 0 },
    });
    assert_eq!(lobby_state_after(joined.clone(), input), joined);
}

#[test]
fn inputs_are_addressed_to_the_next_tick() {
    let input_type = InputType::SetDestination { circle_id: 2, x: 3, y: 4 };
    assert_eq!(
        input_for_next_tick(41, input_type),
        Some(Input { for_tick: 42, player_id: LOCAL_PLAYER_ID, input_type })
    );
    assert_eq!(input_for_next_tick(i32::MAX - 1, input_type).map(|i| i.for_tick), Some(i32::MAX));
    assert_eq!(input_for_next_tick(i32::MAX, input_type), None);
}

#[test]
fn the_interface_gets_ids_and_positions_side_by_side() {
    let mut game = Game::new(Duration::from_millis(22));
    game.add_circle(Point { x: 1, y: 2 }, 0);
    game.add_circle(Point { x: 3, y: 4 }, 1);
    let state = GameState::from(&game);
    assert_eq!(state.circle_ids, vec![0, 1]);
    assert_eq!(state.circle_positions, vec![Point { x: 1, y: 2 }, Point { x: 3, y: 4 }]);
    let empty = GameState::from(&Game::new(Duration::from_millis(22)));
    assert!(empty.circle_ids.is_empty() && empty.circle_positions.is_empty());
}
