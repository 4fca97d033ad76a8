//! The message envelope in its schema form: every level of nesting is an
//! optional field, as a schema-driven codec hands it over and expects it back.

use crate::shared_data::Input;
use crate::time::Timestamp;
use vstd::prelude::*;

verus! {

#[derive(Debug, Copy, Clone, PartialEq, Eq, Structural)]
pub struct Vec2 {
    pub x: u32,
    pub y: u32,
}

#[derive(Debug, Copy, Clone, PartialEq, Eq, Structural)]
pub struct CreateCircle {
    pub position: Option<Vec2>,
}

#[derive(Debug, Copy, Clone, PartialEq, Eq, Structural)]
pub struct SetDestination {
    pub circle_id: i64,
    pub position: Option<Vec2>,
}

#[derive(Debug, Copy, Clone, PartialEq, Eq, Structural)]
pub enum InputType {
    CreateCircle(CreateCircle),
    SetDestination(SetDestination),
}

#[derive(Debug, Copy, Clone, PartialEq, Eq, Structural)]
pub struct InputMessage {
    pub for_tick: i32,
    pub player_id: i32,
    pub input_type: Option<InputType>,
}

#[derive(Debug, Clone, PartialEq, Eq)]
pub struct CreateLobby {
    pub name: String,
}

#[derive(Debug, Clone, PartialEq, Eq)]
pub struct JoinLobby {
    pub name: String,
}

#[derive(Debug, Clone, PartialEq, Eq)]
pub struct LobbyJoined {
    pub name: String,
    /// The names of the players who were in the lobby before.
    pub other_player_names: Vec<String>,
}

#[derive(Debug, Copy, Clone, PartialEq, Eq, Structural)]
pub struct SynchronizedGameStart {
    pub start_at: Option<Timestamp>,
}

#[derive(Debug, Copy, Clone, PartialEq, Eq, Structural)]
pub struct RequestStartGame {}

#[derive(Debug, Clone, PartialEq, Eq)]
pub enum LobbySubMessage {
    CreateLobby(CreateLobby),
    JoinLobby(JoinLobby),
    LobbyJoined(LobbyJoined),
    SynchronizedGameStart(SynchronizedGameStart),
    RequestStartGame(RequestStartGame),
}

#[derive(Debug, Clone, PartialEq, Eq)]
pub struct LobbyMessage {
    pub lobby_sub_message: Option<LobbySubMessage>,
}

#[derive(Debug, Clone, PartialEq, Eq)]
pub enum SubMessage {
    InputMessage(InputMessage),
    LobbyMessage(LobbyMessage),
}

#[derive(Debug, Clone, PartialEq, Eq)]
pub struct CircleMoverMessage {
    pub sub_message: Option<SubMessage>,
}

/// The envelope around one lobby message.
pub open spec fn lobby_envelope(message: LobbySubMessage) -> CircleMoverMessage {
    CircleMoverMessage {
        sub_message: Some(
            SubMessage::LobbyMessage(LobbyMessage { lobby_sub_message: Some(message) }),
        ),
    }
}

/// The schema form of an input's command.
pub open spec fn input_type_of(input_type: crate::shared_data::InputType) -> InputType {
    match input_type {
        crate::shared_data::InputType::CreateCircle { x, y } => InputType::CreateCircle(
            CreateCircle { position: Some(Vec2 { x, y }) },
        ),
        crate::shared_data::InputType::SetDestination { circle_id, x, y } => {
            InputType::SetDestination(SetDestination { circle_id, position: Some(Vec2 { x, y }) })
        },
    }
}

pub fn create_input_message(input: Input) -> (message: CircleMoverMessage)
    ensures
        message == (CircleMoverMessage {
            sub_message: Some(
                SubMessage::InputMessage(
                    InputMessage {
                        for_tick: input.for_tick,
                        player_id: input.player_id,
                        input_type: Some(input_type_of(input.input_type)),
                    },
                ),
            ),
        }),
{
    let input_type = match input.input_type {
        crate::shared_data::InputType::CreateCircle { x, y } => InputType::CreateCircle(
            CreateCircle { position: Some(Vec2 { x, y }) },
        ),
        crate::shared_data::InputType::SetDestination { circle_id, x, y } => {
            InputType::SetDestination(SetDestination { circle_id, position: Some(Vec2 { x, y }) })
        },
    };
    let player_input = InputMessage {
        for_tick: input.for_tick,
        player_id: input.player_id,
        input_type: Some(input_type),
    };
    CircleMoverMessage { sub_message: Some(SubMessage::InputMessage(player_input)) }
}

pub fn create_create_lobby(name: String) -> (message: CircleMoverMessage)
    ensures
        message == lobby_envelope(LobbySubMessage::CreateLobby(CreateLobby { name })),
{
    CircleMoverMessage {
        sub_message: Some(
            SubMessage::LobbyMessage(
                LobbyMessage {
                    lobby_sub_message: Some(LobbySubMessage::CreateLobby(CreateLobby { name })),
                },
            ),
        ),
    }
}

pub fn create_join_lobby(name: String) -> (message: CircleMoverMessage)
    ensures
        message == lobby_envelope(LobbySubMessage::JoinLobby(JoinLobby { name })),
{
    CircleMoverMessage {
        sub_message: Some(
            SubMessage::LobbyMessage(
                LobbyMessage {
                    lobby_sub_message: Some(LobbySubMessage::JoinLobby(JoinLobby { name })),
                },
            ),
        ),
    }
}

/// Whether the message is the envelope that confirms the lobby `lobby` and
/// names no other player.
pub open spec fn confirms_lobby(message: CircleMoverMessage, lobby: String) -> bool {
    &&& message.sub_message matches Some(SubMessage::LobbyMessage(lobby_message))
    &&& lobby_message.lobby_sub_message matches Some(LobbySubMessage::LobbyJoined(joined))
    &&& joined.name == lobby
    &&& joined.other_player_names@.len() == 0
}

/// The confirmation of a lobby. A session does not know the names of the
/// other players, so none are listed.
pub fn create_lobby_joined(name: String) -> (message: CircleMoverMessage)
    ensures
        confirms_lobby(message, name),
{
    CircleMoverMessage {
        sub_message: Some(
            SubMessage::LobbyMessage(
                LobbyMessage {
                    lobby_sub_message: Some(
                        LobbySubMessage::LobbyJoined(
                            LobbyJoined { name, other_player_names: Vec::new() },
                        ),
                    ),
                },
            ),
        ),
    }
}

pub fn create_synchronized_game_start(start_at: Timestamp) -> (message: CircleMoverMessage)
    ensures
        message == lobby_envelope(
            LobbySubMessage::SynchronizedGameStart(
                SynchronizedGameStart { start_at: Some(start_at) },
            ),
        ),
{
    CircleMoverMessage {
        sub_message: Some(
            SubMessage::LobbyMessage(
                LobbyMessage {
                    lobby_sub_message: Some(
                        LobbySubMessage::SynchronizedGameStart(
                            SynchronizedGameStart { start_at: Some(start_at) },
                        ),
                    ),
                },
            ),
        ),
    }
}

pub fn create_create_request_start_game() -> (message: CircleMoverMessage)
    ensures
        message == lobby_envelope(LobbySubMessage::RequestStartGame(RequestStartGame {  })),
{
    CircleMoverMessage {
        sub_message: Some(
            SubMessage::LobbyMessage(
                LobbyMessage {
                    lobby_sub_message: Some(
                        LobbySubMessage::RequestStartGame(RequestStartGame {  }),
                    ),
                },
            ),
        ),
    }
}

} // verus!
