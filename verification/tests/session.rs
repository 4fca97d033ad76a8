use circle_mover::actors::connection::{
    ConnectionActor, ConnectionEffect, ConnectionMessage, ConnectionState, ReadFailure,
};
use circle_mover::actors::lobby::LobbyMessage;
use circle_mover::actors::server::ServerMessage;
use circle_mover::shared_data::{ClientNetworkMessage, Input, InputType, ServerNetworkMessage};
use circle_mover::time::Timestamp;

const ME: u64 = 7;

fn input() -> Input {
    Input { for_tick: 3, player_id: 1, input_type: InputType::CreateCircle { x: 1, y: 2 } }
}

fn in_lobby(name: &str) -> ConnectionState {
    let mut state = ConnectionActor.pre_start();
    ConnectionActor.handle(ME, ConnectionMessage::JoinedLobby { name: name.to_string() }, &mut state);
    state
}

fn receive(state: &mut ConnectionState, message: ClientNetworkMessage) -> Vec<ConnectionEffect> {
    ConnectionActor.handle(ME, ConnectionMessage::ReceivedNetworkMessage(message), state)
}

#[test]
fn a_new_session_is_in_no_lobby() {
    assert_eq!(ConnectionActor.pre_start(), ConnectionState { lobby_ref: None, stopped: false });
}

#[test]
fn lobby_requests_go_to_the_supervisor_with_the_session_as_sender() {
    let mut state = ConnectionActor.pre_start();
    assert_eq!(
        receive(&mut state, ClientNetworkMessage::create_lobby("alpha".to_string())),
        vec![ConnectionEffect::ToServer(ServerMessage::CreateLobby {
            name: "alpha".to_string(),
            host: ME
        })]
    );
    assert_eq!(
        receive(&mut state, ClientNetworkMessage::join_lobby("alpha".to_string())),
        vec![ConnectionEffect::ToServer(ServerMessage::JoinLobby {
            name: "alpha".to_string(),
            player: ME
        })]
    );
    assert_eq!(state, ConnectionActor.pre_start());
}

#[test]
fn a_start_request_outside_a_lobby_does_nothing() {
    let mut state = ConnectionActor.pre_start();
    assert_eq!(receive(&mut state, ClientNetworkMessage::request_start_game()), vec![]);
    assert_eq!(receive(&mut state, ClientNetworkMessage::input(input())), vec![]);
}

#[test]
fn start_requests_and_inputs_go_to_the_lobby() {
    let mut state = in_lobby("alpha");
    assert_eq!(
        receive(&mut state, ClientNetworkMessage::request_start_game()),
        vec![ConnectionEffect::ToLobby {
            lobby: "alpha".to_string(),
            message: LobbyMessage::RequestStartGame
        }]
    );
    assert_eq!(
        receive(&mut state, ClientNetworkMessage::input(input())),
        vec![ConnectionEffect::ToLobby {
            lobby: "alpha".to_string(),
            message: LobbyMessage::Input(input())
        }]
    );
}

#[test]
fn joining_a_lobby_is_confirmed_to_the_client() {
    let mut state = ConnectionActor.pre_start();
    let effects = ConnectionActor.handle(
        ME,
        ConnectionMessage::JoinedLobby { name: "alpha".to_string() },
        &mut state,
    );
    assert_eq!(
        effects,
        vec![ConnectionEffect::Write(ServerNetworkMessage::lobby_joined(
            "alpha".to_string(),
            vec![]
        ))]
    );
    assert_eq!(state.lobby_ref, Some("alpha".to_string()));
}

#[test]
fn the_start_instant_is_written_to_the_client() {
    let mut state = in_lobby("alpha");
    let start_at = Timestamp { seconds: 50, nanos: 5 };
    assert_eq!(
        ConnectionActor.handle(ME, ConnectionMessage::SendSynchronizedGameStart(start_at), &mut state),
        vec![ConnectionEffect::Write(ServerNetworkMessage::synchronized_game_start(start_at))]
    );
}

#[test]
fn a_lost_connection_is_announced_and_stops_the_session() {
    let mut state = in_lobby("alpha");
    assert_eq!(
        ConnectionActor.handle(ME, ConnectionMessage::LostConnection, &mut state),
        vec![
            ConnectionEffect::ToLobby {
                lobby: "alpha".to_string(),
                message: LobbyMessage::LostConnection(ME)
            },
            ConnectionEffect::ToServer(ServerMessage::LostConnection(ME)),
            ConnectionEffect::Stop,
        ]
    );
    assert!(state.stopped);

    let mut alone = ConnectionActor.pre_start();
    assert_eq!(
        ConnectionActor.handle(ME, ConnectionMessage::LostConnection, &mut alone),
        vec![
            ConnectionEffect::ToServer(ServerMessage::LostConnection(ME)),
            ConnectionEffect::Stop,
        ]
    );
}

#[test]
fn a_stopped_session_ignores_everything() {
    let mut state = in_lobby("alpha");
    ConnectionActor.handle(ME, ConnectionMessage::LostConnection, &mut state);
    let stopped = state.clone();
    for message in [
        ConnectionMessage::ReceivedNetworkMessage(ClientNetworkMessage::request_start_game()),
        ConnectionMessage::JoinedLobby { name: "beta".to_string() },
        ConnectionMessage::SendSynchronizedGameStart(Timestamp { seconds: 1, nanos: 0 }),
        ConnectionMessage::LostConnection,
    ] {
        assert_eq!(ConnectionActor.handle(ME, message, &mut state), vec![]);
        assert_eq!(state, stopped);
    }
}

#[test]
fn the_reader_hands_on_messages_skips_garbage_and_ends_on_failure() {
    let message = ClientNetworkMessage::request_start_game();
    assert_eq!(
        ConnectionActor.on_read(Ok(message.clone())),
        (Some(ConnectionMessage::ReceivedNetworkMessage(message)), true)
    );
    assert_eq!(ConnectionActor.on_read(Err(ReadFailure::Codec)), (None, true));
    assert_eq!(
        ConnectionActor.on_read(Err(ReadFailure::Transport)),
        (Some(ConnectionMessage::LostConnection), false)
    );
}
