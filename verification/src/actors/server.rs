//! The supervisor: the root of the actor tree.
//!
//! It keeps the list of live sessions and the registry of lobbies by name. A
//! session is listed once, from the notice that it was spawned until the
//! notice that it was lost. A lobby name is taken from the moment the lobby is
//! asked for until the lobby reports that it has closed; asking for a name
//! that is taken is refused, and the lobby that holds the name is left as it
//! is.

use crate::actors::lobby::{LobbyArguments, LobbyMessage};
use crate::actors::ActorId;
use vstd::prelude::*;

verus! {

#[derive(Debug, Clone, PartialEq, Eq)]
pub enum ServerMessage {
    /// A session has been spawned for a connection that was accepted.
    NewConnection(ActorId),
    CreateLobby { name: String, host: ActorId },
    JoinLobby { name: String, player: ActorId },
    LobbyClosed(String),
    LostConnection(ActorId),
}

/// What the supervisor's owner has to do after a message.
#[derive(Debug, Clone, PartialEq, Eq)]
pub enum ServerEffect {
    /// Spawn a lobby, registered under its name.
    SpawnLobby(LobbyArguments),
    /// The name asked for belongs to a lobby that is still open; nothing was
    /// created.
    LobbyNameTaken { name: String, host: ActorId },
    ToLobby { lobby: String, message: LobbyMessage },
    /// There is no lobby of the name that the player asked to join.
    NoSuchLobby { name: String, player: ActorId },
}

#[derive(Debug)]
pub struct ServerState {
    connection_actors: Vec<ActorId>,
    lobbies: Vec<String>,
}

/// The supervisor's state as contracts see it.
pub struct ServerModel {
    pub connections: Seq<ActorId>,
    /// The names of the open lobbies, in the order they were created.
    pub lobbies: Seq<Seq<char>>,
}

impl ServerModel {
    /// No session is listed twice and no lobby name is registered twice.
    pub open spec fn wf(self) -> bool {
        self.connections.no_duplicates() && self.lobbies.no_duplicates()
    }
}

/// What one message does to the supervisor.
pub open spec fn handled(
    before: ServerModel,
    message: ServerMessage,
    after: ServerModel,
    out: Option<ServerEffect>,
) -> bool {
    match message {
        ServerMessage::NewConnection(conn) => {
            &&& after == if before.connections.contains(conn) {
                before
            } else {
                ServerModel { connections: before.connections.push(conn), ..before }
            }
            &&& out is None
        },
        ServerMessage::CreateLobby { name, host } => if before.lobbies.contains(name@) {
            after == before && out == Some(ServerEffect::LobbyNameTaken { name, host })
        } else {
            &&& after == ServerModel { lobbies: before.lobbies.push(name@), ..before }
            &&& out == Some(ServerEffect::SpawnLobby(LobbyArguments { name, host_conn: host }))
        },
        ServerMessage::JoinLobby { name, player } => {
            &&& after == before
            &&& out == Some(
                if before.lobbies.contains(name@) {
                    ServerEffect::ToLobby { lobby: name, message: LobbyMessage::AddPlayer(player) }
                } else {
                    ServerEffect::NoSuchLobby { name, player }
                },
            )
        },
        ServerMessage::LobbyClosed(name) => {
            &&& after == ServerModel { lobbies: before.lobbies.remove_value(name@), ..before }
            &&& out is None
        },
        ServerMessage::LostConnection(conn) => {
            &&& after == ServerModel {
                connections: before.connections.remove_value(conn),
                ..before
            }
            &&& out is None
        },
    }
}

/// Asking twice for a lobby of the same name creates the lobby once: the
/// second request is refused and the registry is left as the first request
/// made it.
pub proof fn lemma_duplicate_lobby_refused(
    start: ServerModel,
    first_name: String,
    first_host: ActorId,
    after_first: ServerModel,
    first_out: Option<ServerEffect>,
    second_name: String,
    second_host: ActorId,
    after_second: ServerModel,
    second_out: Option<ServerEffect>,
)
    requires
        start.wf(),
        !start.lobbies.contains(first_name@),
        second_name@ == first_name@,
        handled(
            start,
            ServerMessage::CreateLobby { name: first_name, host: first_host },
            after_first,
            first_out,
        ),
        handled(
            after_first,
            ServerMessage::CreateLobby { name: second_name, host: second_host },
            after_second,
            second_out,
        ),
    ensures
        first_out == Some(
            ServerEffect::SpawnLobby(LobbyArguments { name: first_name, host_conn: first_host }),
        ),
        second_out == Some(ServerEffect::LobbyNameTaken { name: second_name, host: second_host }),
        after_second == after_first,
        after_first.lobbies == start.lobbies.push(first_name@),
        after_second.wf(),
{
    assert(after_first.lobbies.last() == first_name@);
}

/// Taking a value out of a list that holds nothing twice leaves a list that
/// holds nothing twice, does not hold the value, and holds everything else
/// where it was relative to the rest.
proof fn lemma_remove_value<A>(list: Seq<A>, value: A)
    requires
        list.no_duplicates(),
    ensures
        list.remove_value(value).no_duplicates(),
        !list.remove_value(value).contains(value),
        forall|other: A|
            other != value ==> (#[trigger] list.remove_value(value).contains(other)
                <==> list.contains(other)),
        !list.contains(value) ==> list.remove_value(value) == list,
        list.contains(value) ==> exists|at: int|
            0 <= at < list.len() && list[at] == value && #[trigger] list.remove(at)
                == list.remove_value(value),
{
    list.index_of_first_ensures(value);
    match list.index_of_first(value) {
        Some(at) => {
            let kept = list.remove(at);
            assert(list.remove_value(value) == kept);
            assert forall|i: int, j: int|
                0 <= i < kept.len() && 0 <= j < kept.len() && i != j implies kept[i]
                != kept[j] by {
                let from_i = if i < at { i } else { i + 1 };
                let from_j = if j < at { j } else { j + 1 };
                assert(kept[i] == list[from_i]);
                assert(kept[j] == list[from_j]);
            }
            if kept.contains(value) {
                let i = choose|i: int| 0 <= i < kept.len() && kept[i] == value;
                let from_i = if i < at { i } else { i + 1 };
                assert(kept[i] == list[from_i]);
            }
            assert forall|other: A| other != value implies (#[trigger] kept.contains(other)
                <==> list.contains(other)) by {
                if kept.contains(other) {
                    let i = choose|i: int| 0 <= i < kept.len() && kept[i] == other;
                    let from_i = if i < at { i } else { i + 1 };
                    assert(list[from_i] == other);
                }
                if list.contains(other) {
                    let i = choose|i: int| 0 <= i < list.len() && list[i] == other;
                    let to_i = if i < at { i } else { i - 1 };
                    assert(kept[to_i] == other);
                }
            }
        },
        None => {},
    }
}

/// Once a lobby has closed its name is free again, and no other lobby is
/// forgotten with it.
pub proof fn lemma_closed_lobby_frees_name(
    before: ServerModel,
    name: String,
    after: ServerModel,
    out: Option<ServerEffect>,
    other: Seq<char>,
)
    requires
        before.wf(),
        handled(before, ServerMessage::LobbyClosed(name), after, out),
    ensures
        after.wf(),
        !after.lobbies.contains(name@),
        other != name@ ==> (after.lobbies.contains(other) <==> before.lobbies.contains(other)),
        after.connections == before.connections,
{
    lemma_remove_value(before.lobbies, name@);
}

/// A session that is reported lost is no longer listed. Every other session
/// stays listed, in the order it had, and no lobby is closed by the notice.
pub proof fn lemma_lost_session_is_forgotten(
    before: ServerModel,
    conn: ActorId,
    after: ServerModel,
    out: Option<ServerEffect>,
)
    requires
        before.wf(),
        handled(before, ServerMessage::LostConnection(conn), after, out),
    ensures
        after.wf(),
        !after.connections.contains(conn),
        forall|other: ActorId|
            other != conn ==> (#[trigger] after.connections.contains(other)
                <==> before.connections.contains(other)),
        !before.connections.contains(conn) ==> after.connections == before.connections,
        before.connections.contains(conn) ==> exists|at: int|
            0 <= at < before.connections.len() && before.connections[at] == conn
                && #[trigger] before.connections.remove(at) == after.connections,
        after.lobbies == before.lobbies,
        out is None,
{
    lemma_remove_value(before.connections, conn);
}

/// A session is listed once however often it is announced.
pub proof fn lemma_session_listed_once(
    before: ServerModel,
    conn: ActorId,
    after: ServerModel,
    out: Option<ServerEffect>,
)
    requires
        before.wf(),
        handled(before, ServerMessage::NewConnection(conn), after, out),
    ensures
        after.wf(),
        after.connections.contains(conn),
        before.connections.contains(conn) ==> after == before,
        after.lobbies == before.lobbies,
{
    if !before.connections.contains(conn) {
        assert(after.connections.last() == conn);
    }
}

pub open spec fn names_of(lobbies: Seq<String>) -> Seq<Seq<char>> {
    lobbies.map_values(|name: String| name@)
}

/// The place of the first lobby of the given name.
fn position_of_name(lobbies: &Vec<String>, name: &String) -> (found: Option<usize>)
    ensures
        match found {
            Some(i) => i < lobbies.len() && names_of(lobbies@).contains(name@) && names_of(
                lobbies@,
            ).index_of_first(name@) == Some(i as int),
            None => !names_of(lobbies@).contains(name@) && names_of(lobbies@).index_of_first(
                name@,
            ) is None,
        },
{
    let ghost names = names_of(lobbies@);
    let mut i: usize = 0;
    while i < lobbies.len()
        invariant
            i <= lobbies.len(),
            names == names_of(lobbies@),
            forall|j: int| 0 <= j < i ==> names[j] != name@,
        decreases lobbies.len() - i,
    {
        if lobbies[i] == *name {
            proof {
                names.index_of_first_ensures(name@);
                assert(names[i as int] == name@);
            }
            return Some(i);
        }
        i += 1;
    }
    proof {
        names.index_of_first_ensures(name@);
    }
    None
}

/// The place of the first occurrence of a session in a list.
fn position_of_id(ids: &Vec<ActorId>, id: ActorId) -> (found: Option<usize>)
    ensures
        match found {
            Some(i) => i < ids.len() && ids@.contains(id) && ids@.index_of_first(id) == Some(
                i as int,
            ),
            None => !ids@.contains(id) && ids@.index_of_first(id) is None,
        },
{
    let mut i: usize = 0;
    while i < ids.len()
        invariant
            i <= ids.len(),
            forall|j: int| 0 <= j < i ==> ids@[j] != id,
        decreases ids.len() - i,
    {
        if ids[i] == id {
            proof {
                ids@.index_of_first_ensures(id);
            }
            return Some(i);
        }
        i += 1;
    }
    proof {
        ids@.index_of_first_ensures(id);
    }
    None
}

impl ServerState {
    pub closed spec fn view(&self) -> ServerModel {
        ServerModel { connections: self.connection_actors@, lobbies: names_of(self.lobbies@) }
    }

    pub open spec fn wf(&self) -> bool {
        self@.wf()
    }

    /// The live sessions, in the order they connected.
    pub fn connection_actors(&self) -> (connections: &Vec<ActorId>)
        ensures
            connections@ == self@.connections,
    {
        &self.connection_actors
    }

    /// The names of the open lobbies, in the order they were created.
    pub fn lobbies(&self) -> (lobbies: &Vec<String>)
        ensures
            names_of(lobbies@) == self@.lobbies,
    {
        &self.lobbies
    }
}

pub struct ServerActor;

impl ServerActor {
    /// A supervisor that knows no session and no lobby.
    pub fn pre_start(&self) -> (state: ServerState)
        ensures
            state.wf(),
            state@ == (ServerModel { connections: Seq::empty(), lobbies: Seq::empty() }),
    {
        let state = ServerState { connection_actors: Vec::new(), lobbies: Vec::new() };
        assert(state@.lobbies =~= Seq::<Seq<char>>::empty());
        state
    }

    pub fn handle(&self, message: ServerMessage, state: &mut ServerState) -> (out: Option<
        ServerEffect,
    >)
        requires
            old(state).wf(),
        ensures
            final(state).wf(),
            handled(old(state)@, message, final(state)@, out),
    {
        match message {
            ServerMessage::NewConnection(conn) => {
                if position_of_id(&state.connection_actors, conn).is_none() {
                    state.connection_actors.push(conn);
                }
                None
            },
            ServerMessage::CreateLobby { name, host } => {
                match position_of_name(&state.lobbies, &name) {
                    Some(_) => Some(ServerEffect::LobbyNameTaken { name, host }),
                    None => {
                        state.lobbies.push(name.clone());
                        assert(state@.lobbies =~= old(state)@.lobbies.push(name@));
                        Some(ServerEffect::SpawnLobby(LobbyArguments { name, host_conn: host }))
                    },
                }
            },
            ServerMessage::JoinLobby { name, player } => {
                match position_of_name(&state.lobbies, &name) {
                    Some(_) => Some(
                        ServerEffect::ToLobby {
                            lobby: name,
                            message: LobbyMessage::AddPlayer(player),
                        },
                    ),
                    None => Some(ServerEffect::NoSuchLobby { name, player }),
                }
            },
            ServerMessage::LobbyClosed(name) => {
                proof {
                    lemma_remove_value(names_of(state.lobbies@), name@);
                }
                match position_of_name(&state.lobbies, &name) {
                    Some(i) => {
                        state.lobbies.remove(i);
                        assert(state@.lobbies =~= old(state)@.lobbies.remove(i as int));
                    },
                    None => {},
                }
                None
            },
            ServerMessage::LostConnection(conn) => {
                proof {
                    lemma_remove_value(state.connection_actors@, conn);
                }
                match position_of_id(&state.connection_actors, conn) {
                    Some(i) => {
                        state.connection_actors.remove(i);
                    },
                    None => {},
                }
                None
            },
        }
    }
}

} // verus!
