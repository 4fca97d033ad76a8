//! The session of one connected client.

use crate::actors::lobby::LobbyMessage;
use crate::actors::server::ServerMessage;
use crate::actors::ActorId;
use crate::shared_data::{
    ClientLobbyMessage, ClientNetworkMessage, ServerLobbyMessage, ServerNetworkMessage,
};
use crate::time::Timestamp;
use vstd::prelude::*;

verus! {

#[derive(Debug, Clone, PartialEq, Eq)]
pub enum ConnectionMessage {
    ReceivedNetworkMessage(ClientNetworkMessage),
    /// The session is now in the lobby of this name.
    JoinedLobby { name: String },
    SendSynchronizedGameStart(Timestamp),
    LostConnection,
}

/// What the session's owner has to do, in the order given.
#[derive(Debug, Clone, PartialEq, Eq)]
pub enum ConnectionEffect {
    ToServer(ServerMessage),
    ToLobby { lobby: String, message: LobbyMessage },
    /// Encode the message and write it to the client on a stream of its own.
    Write(ServerNetworkMessage),
    /// Stop the session.
    Stop,
}

/// Why a read from the client gave no message.
#[derive(Debug, Copy, Clone, PartialEq, Eq, Structural)]
pub enum ReadFailure {
    /// The connection or the stream failed.
    Transport,
    /// The bytes read are not a message.
    Codec,
}

#[derive(Debug, Clone, PartialEq, Eq)]
pub struct ConnectionState {
    /// The lobby the session is in, by name.
    pub lobby_ref: Option<String>,
    /// Set once the connection is lost; a stopped session ignores everything.
    pub stopped: bool,
}

/// The effects of a message from the client.
pub open spec fn routed(
    lobby_ref: Option<String>,
    myself: ActorId,
    message: ClientNetworkMessage,
) -> Seq<ConnectionEffect> {
    match message {
        ClientNetworkMessage::LobbyMessage(ClientLobbyMessage::CreateLobby { name }) => seq![
            ConnectionEffect::ToServer(ServerMessage::CreateLobby { name, host: myself }),
        ],
        ClientNetworkMessage::LobbyMessage(ClientLobbyMessage::JoinLobby { name }) => seq![
            ConnectionEffect::ToServer(ServerMessage::JoinLobby { name, player: myself }),
        ],
        ClientNetworkMessage::LobbyMessage(ClientLobbyMessage::RequestStartGame) => {
            match lobby_ref {
                Some(lobby) => seq![
                    ConnectionEffect::ToLobby { lobby, message: LobbyMessage::RequestStartGame },
                ],
                None => seq![],
            }
        },
        ClientNetworkMessage::InputMessage(input) => match lobby_ref {
            Some(lobby) => seq![
                ConnectionEffect::ToLobby { lobby, message: LobbyMessage::Input(input) },
            ],
            None => seq![],
        },
    }
}

/// The effects of losing the connection: the lobby, if any, and the supervisor
/// are told, and the session stops.
pub open spec fn farewell(lobby_ref: Option<String>, myself: ActorId) -> Seq<ConnectionEffect> {
    match lobby_ref {
        Some(lobby) => seq![
            ConnectionEffect::ToLobby { lobby, message: LobbyMessage::LostConnection(myself) },
            ConnectionEffect::ToServer(ServerMessage::LostConnection(myself)),
            ConnectionEffect::Stop,
        ],
        None => seq![
            ConnectionEffect::ToServer(ServerMessage::LostConnection(myself)),
            ConnectionEffect::Stop,
        ],
    }
}

/// Whether the effects are the single write that confirms a lobby to the
/// client. The names of the other players are not known to a session, so none
/// are listed.
pub open spec fn confirms_lobby(effects: Seq<ConnectionEffect>, lobby: String) -> bool {
    &&& effects.len() == 1
    &&& effects[0] matches ConnectionEffect::Write(
        ServerNetworkMessage::LobbyMessage(ServerLobbyMessage::LobbyJoined { name, other_players }),
    )
    &&& name == lobby
    &&& other_players@.len() == 0
}

/// What one message does to a session.
pub open spec fn handled(
    before: ConnectionState,
    myself: ActorId,
    message: ConnectionMessage,
    after: ConnectionState,
    effects: Seq<ConnectionEffect>,
) -> bool {
    if before.stopped {
        after == before && effects.len() == 0
    } else {
        match message {
            ConnectionMessage::ReceivedNetworkMessage(received) => after == before && effects
                == routed(before.lobby_ref, myself, received),
            ConnectionMessage::JoinedLobby { name } => after == (ConnectionState {
                lobby_ref: Some(name),
                ..before
            }) && confirms_lobby(effects, name),
            ConnectionMessage::SendSynchronizedGameStart(start_at) => after == before && effects
                == seq![
                ConnectionEffect::Write(
                    ServerNetworkMessage::LobbyMessage(
                        ServerLobbyMessage::SynchronizedGameStart { start_at },
                    ),
                ),
            ],
            ConnectionMessage::LostConnection => after == (ConnectionState {
                stopped: true,
                ..before
            }) && effects == farewell(before.lobby_ref, myself),
        }
    }
}

/// What the reader of a connection does with the outcome of one read: the
/// message to hand to the session, if any, and whether to read on. A message
/// that cannot be decoded is skipped; a failed transport ends the session.
pub open spec fn read_step(outcome: Result<ClientNetworkMessage, ReadFailure>) -> (
    Option<ConnectionMessage>,
    bool,
) {
    match outcome {
        Ok(message) => (Some(ConnectionMessage::ReceivedNetworkMessage(message)), true),
        Err(ReadFailure::Codec) => (None, true),
        Err(ReadFailure::Transport) => (Some(ConnectionMessage::LostConnection), false),
    }
}

/// A session that has lost its connection has ceased: whatever arrives, its
/// state stays as it is and no effect follows.
pub proof fn lemma_stopped_session_is_silent(
    before: ConnectionState,
    myself: ActorId,
    message: ConnectionMessage,
    after: ConnectionState,
    effects: Seq<ConnectionEffect>,
)
    requires
        before.stopped,
        handled(before, myself, message, after, effects),
    ensures
        after == before,
        effects.len() == 0,
{
}

/// Losing the connection stops the session, and the last thing it does is to
/// tell its lobby, if it is in one, and the supervisor.
pub proof fn lemma_lost_connection_stops_session(
    before: ConnectionState,
    myself: ActorId,
    after: ConnectionState,
    effects: Seq<ConnectionEffect>,
)
    requires
        !before.stopped,
        handled(before, myself, ConnectionMessage::LostConnection, after, effects),
    ensures
        after.stopped,
        effects.last() == ConnectionEffect::Stop,
        effects.contains(ConnectionEffect::ToServer(ServerMessage::LostConnection(myself))),
        before.lobby_ref matches Some(lobby) ==> effects[0] == (ConnectionEffect::ToLobby {
            lobby,
            message: LobbyMessage::LostConnection(myself),
        }),
{
    match before.lobby_ref {
        Some(lobby) => {
            assert(effects[1] == ConnectionEffect::ToServer(ServerMessage::LostConnection(myself)));
        },
        None => {
            assert(effects[0] == ConnectionEffect::ToServer(ServerMessage::LostConnection(myself)));
        },
    }
}

pub struct ConnectionActor;

impl ConnectionActor {
    /// A fresh session: in no lobby, not stopped.
    pub fn pre_start(&self) -> (state: ConnectionState)
        ensures
            state == (ConnectionState { lobby_ref: None, stopped: false }),
    {
        ConnectionState { lobby_ref: None, stopped: false }
    }

    pub fn on_read(&self, outcome: Result<ClientNetworkMessage, ReadFailure>) -> (step: (
        Option<ConnectionMessage>,
        bool,
    ))
        ensures
            step == read_step(outcome),
    {
        match outcome {
            Ok(message) => (Some(ConnectionMessage::ReceivedNetworkMessage(message)), true),
            Err(ReadFailure::Codec) => (None, true),
            Err(ReadFailure::Transport) => (Some(ConnectionMessage::LostConnection), false),
        }
    }

    pub fn handle(
        &self,
        myself: ActorId,
        message: ConnectionMessage,
        state: &mut ConnectionState,
    ) -> (effects: Vec<ConnectionEffect>)
        ensures
            handled(*old(state), myself, message, *final(state), effects@),
    {
        let mut effects: Vec<ConnectionEffect> = Vec::new();
        if state.stopped {
            return effects;
        }
        match message {
            ConnectionMessage::ReceivedNetworkMessage(received) => {
                match received {
                    ClientNetworkMessage::LobbyMessage(ClientLobbyMessage::RequestStartGame) => {
                        if let Some(lobby) = &state.lobby_ref {
                            effects.push(
                                ConnectionEffect::ToLobby {
                                    lobby: lobby.clone(),
                                    message: LobbyMessage::RequestStartGame,
                                },
                            );
                        }
                    },
                    ClientNetworkMessage::LobbyMessage(
                        ClientLobbyMessage::CreateLobby { name },
                    ) => {
                        effects.push(
                            ConnectionEffect::ToServer(
                                ServerMessage::CreateLobby { name, host: myself },
                            ),
                        );
                    },
                    ClientNetworkMessage::LobbyMessage(ClientLobbyMessage::JoinLobby { name }) => {
                        effects.push(
                            ConnectionEffect::ToServer(
                                ServerMessage::JoinLobby { name, player: myself },
                            ),
                        );
                    },
                    ClientNetworkMessage::InputMessage(input) => {
                        if let Some(lobby) = &state.lobby_ref {
                            effects.push(
                                ConnectionEffect::ToLobby {
                                    lobby: lobby.clone(),
                                    message: LobbyMessage::Input(input),
                                },
                            );
                        }
                    },
                }
                assert(effects@ =~= routed(old(state).lobby_ref, myself, received));
            },
            ConnectionMessage::JoinedLobby { name } => {
                state.lobby_ref = Some(name.clone());
                effects.push(
                    ConnectionEffect::Write(ServerNetworkMessage::lobby_joined(name, Vec::new())),
                );
            },
            ConnectionMessage::SendSynchronizedGameStart(start_at) => {
                let notice = ServerNetworkMessage::synchronized_game_start(start_at);
                effects.push(ConnectionEffect::Write(notice));
                assert(effects@ =~= seq![
                    ConnectionEffect::Write(
                        ServerNetworkMessage::LobbyMessage(
                            ServerLobbyMessage::SynchronizedGameStart { start_at },
                        ),
                    ),
                ]);
            },
            ConnectionMessage::LostConnection => {
                if let Some(lobby) = &state.lobby_ref {
                    effects.push(
                        ConnectionEffect::ToLobby {
                            lobby: lobby.clone(),
                            message: LobbyMessage::LostConnection(myself),
                        },
                    );
                }
                effects.push(ConnectionEffect::ToServer(ServerMessage::LostConnection(myself)));
                effects.push(ConnectionEffect::Stop);
                state.stopped = true;
                assert(effects@ =~= farewell(old(state).lobby_ref, myself));
            },
        }
        effects
    }
}

} // verus!
