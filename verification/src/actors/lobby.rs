//! One pending or running match and the sessions in it.
//!
//! The session that created the lobby is its host; sessions that join later are
//! members, in the order they joined. When a start is requested the lobby picks
//! one instant, a fixed countdown from now, and hands that same instant to the
//! host, to every member and to the simulation. A lobby starts once: a start
//! request that reaches a lobby which has started is ignored, so a match has
//! one simulation and one start instant. When any session of the lobby is lost
//! the whole lobby closes: the simulation is stopped, the supervisor is told,
//! and the lobby ignores whatever arrives afterwards.

use crate::actors::connection::ConnectionMessage;
use crate::actors::server::ServerMessage;
use crate::actors::ActorId;
use crate::shared_data::Input;
use crate::sim::actor::SimMessage;
use crate::time::Timestamp;
use vstd::prelude::*;

verus! {

/// Seconds between a start request and the start of the match.
pub const START_COUNTDOWN_SECONDS: u32 = 5;

/// The tick period of a lobby's simulation, in milliseconds.
pub const MINIMUM_TICK_MILLIS: u64 = 22;

#[derive(Debug, Clone, PartialEq, Eq)]
pub enum LobbyMessage {
    AddPlayer(ActorId),
    RequestStartGame,
    LostConnection(ActorId),
    /// An input from a member, on its way to the simulation.
    Input(Input),
}

/// What the lobby's owner has to do, in the order given.
#[derive(Debug, Clone, PartialEq, Eq)]
pub enum LobbyEffect {
    ToConnection { conn: ActorId, message: ConnectionMessage },
    /// Spawn the lobby's simulation with this tick period.
    SpawnSim { minimum_tick_millis: u64 },
    ToSim(SimMessage),
    ToServer(ServerMessage),
    /// Stop the lobby.
    Stop,
}

#[derive(Debug, Copy, Clone, PartialEq, Eq, Structural)]
pub enum LobbyError {
    /// The start instant is beyond what a timestamp can hold.
    ClockOutOfRange,
}

#[derive(Debug, Clone, PartialEq, Eq)]
pub struct LobbyState {
    pub name: String,
    pub host_conn: ActorId,
    pub player_conns: Vec<ActorId>,
    /// Whether the lobby has started its simulation.
    pub started: bool,
    pub closed: bool,
}

#[derive(Debug, Clone, PartialEq, Eq)]
pub struct LobbyArguments {
    pub name: String,
    pub host_conn: ActorId,
}

/// A lobby's state as contracts see it.
pub struct LobbyModel {
    pub name: String,
    pub host_conn: ActorId,
    pub player_conns: Seq<ActorId>,
    pub started: bool,
    pub closed: bool,
}

impl LobbyModel {
    /// The number of sessions in the lobby, the host included.
    pub open spec fn membership(self) -> nat {
        self.player_conns.len() + 1
    }
}

/// The notice that tells a session that it is in the lobby.
pub open spec fn welcome(conn: ActorId, name: String) -> LobbyEffect {
    LobbyEffect::ToConnection { conn, message: ConnectionMessage::JoinedLobby { name } }
}

/// The notice that tells a session when the match starts.
pub open spec fn start_notice(conn: ActorId, start_at: Timestamp) -> LobbyEffect {
    LobbyEffect::ToConnection {
        conn,
        message: ConnectionMessage::SendSynchronizedGameStart(start_at),
    }
}

/// The effects of a start: the simulation is spawned, the host and then every
/// member in joining order are told the start instant, and the simulation is
/// told the same instant.
pub open spec fn start_effects(host: ActorId, players: Seq<ActorId>, start_at: Timestamp) -> Seq<
    LobbyEffect,
> {
    seq![
        LobbyEffect::SpawnSim { minimum_tick_millis: MINIMUM_TICK_MILLIS },
        start_notice(host, start_at),
    ] + players.map_values(|conn: ActorId| start_notice(conn, start_at)) + seq![
        LobbyEffect::ToSim(SimMessage::StartAt(start_at)),
    ]
}

/// The effects of closing: a running simulation is stopped, the supervisor is
/// told to forget the lobby, and the lobby stops.
pub open spec fn close_effects(name: String, started: bool) -> Seq<LobbyEffect> {
    if started {
        seq![
            LobbyEffect::ToSim(SimMessage::Stop),
            LobbyEffect::ToServer(ServerMessage::LobbyClosed(name)),
            LobbyEffect::Stop,
        ]
    } else {
        seq![LobbyEffect::ToServer(ServerMessage::LobbyClosed(name)), LobbyEffect::Stop]
    }
}

/// The instant at which a match requested at `now` starts, if a timestamp can
/// hold it.
pub open spec fn start_instant(now: Timestamp) -> Option<Timestamp> {
    if now.seconds + START_COUNTDOWN_SECONDS <= i64::MAX {
        Some(
            Timestamp {
                seconds: (now.seconds + START_COUNTDOWN_SECONDS) as i64,
                nanos: now.nanos,
            },
        )
    } else {
        None
    }
}

/// What one message, handled at the instant `now`, does to a lobby.
pub open spec fn handled(
    before: LobbyModel,
    message: LobbyMessage,
    now: Timestamp,
    after: LobbyModel,
    out: Result<Vec<LobbyEffect>, LobbyError>,
) -> bool {
    if before.closed {
        after == before && out is Ok && out->Ok_0@.len() == 0
    } else {
        match message {
            LobbyMessage::AddPlayer(conn) => {
                &&& after == LobbyModel { player_conns: before.player_conns.push(conn), ..before }
                &&& out is Ok
                &&& out->Ok_0@ == seq![welcome(conn, before.name)]
            },
            LobbyMessage::RequestStartGame => if before.started {
                after == before && out is Ok && out->Ok_0@.len() == 0
            } else {
                match start_instant(now) {
                    Some(start_at) => {
                        &&& after == LobbyModel { started: true, ..before }
                        &&& out is Ok
                        &&& out->Ok_0@ == start_effects(
                            before.host_conn,
                            before.player_conns,
                            start_at,
                        )
                    },
                    None => after == before && out == Err::<Vec<LobbyEffect>, LobbyError>(
                        LobbyError::ClockOutOfRange,
                    ),
                }
            },
            LobbyMessage::LostConnection(_) => {
                &&& after == LobbyModel { closed: true, ..before }
                &&& out is Ok
                &&& out->Ok_0@ == close_effects(before.name, before.started)
            },
            LobbyMessage::Input(input) => {
                &&& after == before
                &&& out is Ok
                &&& out->Ok_0@ == if before.started {
                    seq![LobbyEffect::ToSim(SimMessage::SendInput(input))]
                } else {
                    seq![]
                }
            },
        }
    }
}

/// A start reaches everyone with one and the same instant: the host and every
/// member get exactly one notice each, in joining order, and the simulation is
/// told to start at the instant that the notices carry.
pub proof fn lemma_start_is_synchronized(host: ActorId, players: Seq<ActorId>, start_at: Timestamp)
    ensures
        start_effects(host, players, start_at).len() == players.len() + 3,
        start_effects(host, players, start_at)[0] == (LobbyEffect::SpawnSim {
            minimum_tick_millis: MINIMUM_TICK_MILLIS,
        }),
        start_effects(host, players, start_at)[1] == start_notice(host, start_at),
        forall|i: int|
            0 <= i < players.len() ==> #[trigger] start_effects(host, players, start_at)[i + 2]
                == start_notice(players[i], start_at),
        start_effects(host, players, start_at)[players.len() as int + 2] == LobbyEffect::ToSim(
            SimMessage::StartAt(start_at),
        ),
{
}

/// The match starts the length of the countdown after the request.
pub proof fn lemma_start_instant(now: Timestamp)
    ensures
        start_instant(now) matches Some(start_at) ==> start_at.total_nanos() == now.total_nanos()
            + START_COUNTDOWN_SECONDS * crate::time::NANOS_PER_SECOND,
{
    assert((now.seconds + START_COUNTDOWN_SECONDS) * crate::time::NANOS_PER_SECOND == now.seconds
        * crate::time::NANOS_PER_SECOND + START_COUNTDOWN_SECONDS * crate::time::NANOS_PER_SECOND)
        by (nonlinear_arith);
}

/// Losing any session closes an open lobby: a running simulation is told to
/// stop before anything else, the supervisor is told to forget the lobby, and
/// the lobby stops.
pub proof fn lemma_disconnect_closes(
    before: LobbyModel,
    lost: ActorId,
    now: Timestamp,
    after: LobbyModel,
    out: Result<Vec<LobbyEffect>, LobbyError>,
)
    requires
        !before.closed,
        handled(before, LobbyMessage::LostConnection(lost), now, after, out),
    ensures
        after.closed,
        out is Ok,
        before.started ==> out->Ok_0@[0] == LobbyEffect::ToSim(SimMessage::Stop),
        out->Ok_0@.contains(LobbyEffect::ToServer(ServerMessage::LobbyClosed(before.name))),
        out->Ok_0@.last() == LobbyEffect::Stop,
{
    let effects = out->Ok_0@;
    if before.started {
        assert(effects[1] == LobbyEffect::ToServer(ServerMessage::LobbyClosed(before.name)));
    } else {
        assert(effects[0] == LobbyEffect::ToServer(ServerMessage::LobbyClosed(before.name)));
    }
}

/// A lobby starts once: a start request to an open lobby that has started
/// changes nothing and has no effect.
pub proof fn lemma_lobby_starts_once(
    before: LobbyModel,
    now: Timestamp,
    after: LobbyModel,
    out: Result<Vec<LobbyEffect>, LobbyError>,
)
    requires
        !before.closed,
        before.started,
        handled(before, LobbyMessage::RequestStartGame, now, after, out),
    ensures
        after == before,
        out is Ok,
        out->Ok_0@.len() == 0,
{
}

/// A closed lobby does nothing more: whatever arrives, its state stays as it
/// is and no effect follows.
pub proof fn lemma_closed_is_final(
    before: LobbyModel,
    message: LobbyMessage,
    now: Timestamp,
    after: LobbyModel,
    out: Result<Vec<LobbyEffect>, LobbyError>,
)
    requires
        before.closed,
        handled(before, message, now, after, out),
    ensures
        after == before,
        out is Ok,
        out->Ok_0@.len() == 0,
{
}

/// Every player added to an open lobby raises its membership by one and joins
/// behind those already there.
pub proof fn lemma_add_player_grows_membership(
    before: LobbyModel,
    conn: ActorId,
    now: Timestamp,
    after: LobbyModel,
    out: Result<Vec<LobbyEffect>, LobbyError>,
)
    requires
        !before.closed,
        handled(before, LobbyMessage::AddPlayer(conn), now, after, out),
    ensures
        after.membership() == before.membership() + 1,
        after.player_conns.last() == conn,
        after.host_conn == before.host_conn,
{
}

impl LobbyState {
    pub open spec fn view(&self) -> LobbyModel {
        LobbyModel {
            name: self.name,
            host_conn: self.host_conn,
            player_conns: self.player_conns@,
            started: self.started,
            closed: self.closed,
        }
    }
}

pub struct LobbyActor;

impl LobbyActor {
    /// Opens the lobby and confirms it to its host.
    pub fn pre_start(&self, arguments: LobbyArguments) -> (opened: (LobbyState, Vec<LobbyEffect>))
        ensures
            opened.0@ == (LobbyModel {
                name: arguments.name,
                host_conn: arguments.host_conn,
                player_conns: Seq::empty(),
                started: false,
                closed: false,
            }),
            opened.1@ == seq![welcome(arguments.host_conn, arguments.name)],
    {
        let mut effects: Vec<LobbyEffect> = Vec::new();
        effects.push(
            LobbyEffect::ToConnection {
                conn: arguments.host_conn,
                message: ConnectionMessage::JoinedLobby { name: arguments.name.clone() },
            },
        );
        let state = LobbyState {
            name: arguments.name,
            host_conn: arguments.host_conn,
            player_conns: Vec::new(),
            started: false,
            closed: false,
        };
        assert(effects@ =~= seq![welcome(arguments.host_conn, arguments.name)]);
        (state, effects)
    }

    pub fn handle(&self, message: LobbyMessage, state: &mut LobbyState, now: Timestamp) -> (out:
        Result<Vec<LobbyEffect>, LobbyError>)
        ensures
            handled(old(state)@, message, now, final(state)@, out),
    {
        let mut effects: Vec<LobbyEffect> = Vec::new();
        if state.closed {
            return Ok(effects);
        }
        match message {
            LobbyMessage::AddPlayer(player_conn) => {
                effects.push(
                    LobbyEffect::ToConnection {
                        conn: player_conn,
                        message: ConnectionMessage::JoinedLobby { name: state.name.clone() },
                    },
                );
                state.player_conns.push(player_conn);
                assert(effects@ =~= seq![welcome(player_conn, old(state).name)]);
            },
            LobbyMessage::RequestStartGame => {
                if state.started {
                    return Ok(effects);
                }
                // One start instant for every client and for the simulation.
                let start_at = match now.plus_seconds(START_COUNTDOWN_SECONDS) {
                    Some(start_at) => start_at,
                    None => {
                        return Err(LobbyError::ClockOutOfRange);
                    },
                };
                effects.push(LobbyEffect::SpawnSim { minimum_tick_millis: MINIMUM_TICK_MILLIS });
                effects.push(
                    LobbyEffect::ToConnection {
                        conn: state.host_conn,
                        message: ConnectionMessage::SendSynchronizedGameStart(start_at),
                    },
                );
                let ghost head = effects@;
                let mut i: usize = 0;
                while i < state.player_conns.len()
                    invariant
                        i <= state.player_conns.len(),
                        *state == *old(state),
                        effects@ == head + state.player_conns@.take(i as int).map_values(
                            |conn: ActorId| start_notice(conn, start_at),
                        ),
                    decreases state.player_conns.len() - i,
                {
                    effects.push(
                        LobbyEffect::ToConnection {
                            conn: state.player_conns[i],
                            message: ConnectionMessage::SendSynchronizedGameStart(start_at),
                        },
                    );
                    i += 1;
                    assert(effects@ =~= head + state.player_conns@.take(i as int).map_values(
                        |conn: ActorId| start_notice(conn, start_at),
                    ));
                }
                assert(state.player_conns@.take(i as int) =~= state.player_conns@);
                effects.push(LobbyEffect::ToSim(SimMessage::StartAt(start_at)));
                state.started = true;
                assert(effects@ =~= start_effects(
                    old(state).host_conn,
                    old(state).player_conns@,
                    start_at,
                ));
            },
            LobbyMessage::LostConnection(_) => {
                if state.started {
                    effects.push(LobbyEffect::ToSim(SimMessage::Stop));
                }
                effects.push(LobbyEffect::ToServer(ServerMessage::LobbyClosed(state.name.clone())));
                effects.push(LobbyEffect::Stop);
                state.closed = true;
                assert(effects@ =~= close_effects(old(state).name, old(state).started));
            },
            LobbyMessage::Input(input) => {
                if state.started {
                    effects.push(LobbyEffect::ToSim(SimMessage::SendInput(input)));
                    assert(effects@ =~= seq![LobbyEffect::ToSim(SimMessage::SendInput(input))]);
                }
            },
        }
        Ok(effects)
    }
}

} // verus!
