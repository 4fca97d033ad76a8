//! Values exchanged between clients, sessions and the simulation.

use crate::time::Timestamp;
use vstd::prelude::*;

verus! {

/// What a player asks of the simulation.
///
/// Coordinates are carried as IEEE-754 binary32 bit patterns. The library moves
/// them around untouched and never interprets them as numbers.
#[derive(Debug, Copy, Clone, PartialEq, Eq, Structural)]
pub enum InputType {
    CreateCircle { x: u32, y: u32 },
    SetDestination { circle_id: i64, x: u32, y: u32 },
}

/// One player command, addressed to the tick at which it is to be applied.
#[derive(Debug, Copy, Clone, PartialEq, Eq, Structural)]
pub struct Input {
    pub for_tick: i32,
    pub player_id: i32,
    pub input_type: InputType,
}

/// The largest encoded message, in bytes, that a reader accepts.
pub const MAX_MESSAGE_SIZE: usize = 1024;

#[derive(Debug, Clone, PartialEq, Eq)]
pub enum ServerLobbyMessage {
    LobbyJoined { name: String, other_players: Vec<String> },
    SynchronizedGameStart { start_at: Timestamp },
}

#[derive(Debug, Clone, PartialEq, Eq)]
pub enum ClientLobbyMessage {
    CreateLobby { name: String },
    JoinLobby { name: String },
    RequestStartGame,
}

/// Messages from server to client.
#[derive(Debug, Clone, PartialEq, Eq)]
pub enum ServerNetworkMessage {
    LobbyMessage(ServerLobbyMessage),
    InputMessage(Input),
}

/// Messages from client to server.
#[derive(Debug, Clone, PartialEq, Eq)]
pub enum ClientNetworkMessage {
    LobbyMessage(ClientLobbyMessage),
    InputMessage(Input),
}

impl ServerNetworkMessage {
    pub fn lobby_joined(name: String, other_players: Vec<String>) -> (message: ServerNetworkMessage)
        ensures
            message == ServerNetworkMessage::LobbyMessage(
                ServerLobbyMessage::LobbyJoined { name, other_players },
            ),
    {
        ServerNetworkMessage::LobbyMessage(ServerLobbyMessage::LobbyJoined { name, other_players })
    }

    pub fn synchronized_game_start(start_at: Timestamp) -> (message: ServerNetworkMessage)
        ensures
            message == ServerNetworkMessage::LobbyMessage(
                ServerLobbyMessage::SynchronizedGameStart { start_at },
            ),
    {
        ServerNetworkMessage::LobbyMessage(ServerLobbyMessage::SynchronizedGameStart { start_at })
    }
}

impl ClientNetworkMessage {
    pub fn create_lobby(name: String) -> (message: ClientNetworkMessage)
        ensures
            message == ClientNetworkMessage::LobbyMessage(ClientLobbyMessage::CreateLobby { name }),
    {
        ClientNetworkMessage::LobbyMessage(ClientLobbyMessage::CreateLobby { name })
    }

    pub fn join_lobby(name: String) -> (message: ClientNetworkMessage)
        ensures
            message == ClientNetworkMessage::LobbyMessage(ClientLobbyMessage::JoinLobby { name }),
    {
        ClientNetworkMessage::LobbyMessage(ClientLobbyMessage::JoinLobby { name })
    }

    pub fn request_start_game() -> (message: ClientNetworkMessage)
        ensures
            message == ClientNetworkMessage::LobbyMessage(ClientLobbyMessage::RequestStartGame),
    {
        ClientNetworkMessage::LobbyMessage(ClientLobbyMessage::RequestStartGame)
    }

    pub fn input(input: Input) -> (message: ClientNetworkMessage)
        ensures
            message == ClientNetworkMessage::InputMessage(input),
    {
        ClientNetworkMessage::InputMessage(input)
    }
}

} // verus!
