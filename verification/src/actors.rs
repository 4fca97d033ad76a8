//! The actors around the simulation: one session per client, one lobby per
//! match, and the supervisor that knows them all.
//!
//! Each actor is a state machine. `handle` takes one message, changes the
//! actor's state, and returns the effects that the actor's owner carries out in
//! order: messages for other actors, bytes for the client, actors to spawn.

use crate::actors::connection::{ConnectionEffect, ConnectionMessage, ConnectionState};
use crate::actors::lobby::{LobbyEffect, LobbyError, LobbyModel};
use crate::sim::actor::{SimEffect, SimError, SimMessage, SimModel, SimPhase};
use crate::sim::game::{Motion, Point};
use crate::time::Timestamp;
use vstd::prelude::*;

pub mod connection;
pub mod lobby;
pub mod server;

verus! {

/// Names one session.
pub type ActorId = u64;

/// Losing a session in the middle of a match ends the match. The session
/// hands the news to its lobby first; the lobby, before anything else, tells
/// the simulation to stop; and the stopped simulation publishes no snapshot,
/// whatever reaches it afterwards.
pub proof fn lemma_disconnect_ends_match<F: Fn(Motion) -> Point>(
    myself: ActorId,
    session: ConnectionState,
    session_after: ConnectionState,
    session_effects: Seq<ConnectionEffect>,
    now: Timestamp,
    lobby: LobbyModel,
    lobby_after: LobbyModel,
    lobby_out: Result<Vec<LobbyEffect>, LobbyError>,
    advance: F,
    sim: SimModel,
    sim_after: SimModel,
    sim_out: Result<SimEffect, SimError>,
    later: SimMessage,
    later_now: Timestamp,
    sim_last: SimModel,
    last_out: Result<SimEffect, SimError>,
)
    requires
        !session.stopped,
        session.lobby_ref is Some,
        connection::handled(
            session,
            myself,
            ConnectionMessage::LostConnection,
            session_after,
            session_effects,
        ),
        !lobby.closed,
        lobby.started,
        session_effects[0] matches ConnectionEffect::ToLobby { message, .. } && lobby::handled(
            lobby,
            message,
            now,
            lobby_after,
            lobby_out,
        ),
        lobby_out matches Ok(effects) && effects@[0] matches LobbyEffect::ToSim(message)
            && crate::sim::actor::handled(advance, sim, message, now, sim_after, sim_out),
        crate::sim::actor::handled(advance, sim_after, later, later_now, sim_last, last_out),
    ensures
        session_after.stopped,
        lobby_after.closed,
        sim_after.phase == SimPhase::Stopped,
        sim_last == sim_after,
        last_out == Ok::<SimEffect, SimError>(SimEffect::Nothing),
{
}

} // verus!
