use circle_mover::actors::connection::{
    ConnectionActor, ConnectionEffect, ConnectionMessage, ConnectionState,
};
use circle_mover::actors::lobby::{LobbyActor, LobbyEffect, LobbyMessage, LobbyState};
use circle_mover::actors::server::{ServerActor, ServerEffect, ServerMessage, ServerState};
use circle_mover::shared_data::{
    ClientNetworkMessage, Input, InputType, ServerLobbyMessage, ServerNetworkMessage,
};
use circle_mover::sim::actor::{
    SimActor, SimArguments, SimEffect, SimMessage, SimPhase, SimState,
};
use circle_mover::sim::game::{Motion, Point};
use circle_mover::time::Timestamp;
use std::collections::HashMap;
use std::time::Duration;

const A: u64 = 1;
const B: u64 = 2;

fn stay(m: Motion) -> Point {
    m.position
}

/// The actors of one server with the wiring between them: every effect is
/// carried out at once, in the order it was returned.
struct World {
    now: Timestamp,
    server: ServerState,
    sessions: HashMap<u64, ConnectionState>,
    lobbies: HashMap<String, LobbyState>,
    sims: HashMap<String, SimState>,
    written: Vec<(u64, ServerNetworkMessage)>,
    published: Vec<(String, i32)>,
    scheduled: Vec<(String, u128)>,
    refused: Vec<ServerEffect>,
}

impl World {
    fn new() -> World {
        World {
            now: Timestamp { seconds: 1_700_000_000, nanos: 0 },
            server: ServerActor.pre_start(),
            sessions: HashMap::new(),
            lobbies: HashMap::new(),
            sims: HashMap::new(),
            written: Vec::new(),
            published: Vec::new(),
            scheduled: Vec::new(),
            refused: Vec::new(),
        }
    }

    fn connect(&mut self, conn: u64) {
        self.sessions.insert(conn, ConnectionActor.pre_start());
        self.to_server(ServerMessage::NewConnection(conn));
    }

    fn client_sends(&mut self, conn: u64, message: ClientNetworkMessage) {
        self.to_session(conn, ConnectionMessage::ReceivedNetworkMessage(message));
    }

    fn disconnect(&mut self, conn: u64) {
        self.to_session(conn, ConnectionMessage::LostConnection);
    }

    fn to_session(&mut self, conn: u64, message: ConnectionMessage) {
        let state = self.sessions.get_mut(&conn).expect("a session");
        for effect in ConnectionActor.handle(conn, message, state) {
            match effect {
                ConnectionEffect::ToServer(message) => self.to_server(message),
                ConnectionEffect::ToLobby { lobby, message } => self.to_lobby(&lobby, message),
                ConnectionEffect::Write(message) => self.written.push((conn, message)),
                ConnectionEffect::Stop => {}
            }
        }
    }

    fn to_server(&mut self, message: ServerMessage) {
        match ServerActor.handle(message, &mut self.server) {
            Some(ServerEffect::SpawnLobby(arguments)) => {
                let name = arguments.name.clone();
                let (state, effects) = LobbyActor.pre_start(arguments);
                self.lobbies.insert(name.clone(), state);
                self.lobby_effects(&name, effects);
            }
            Some(ServerEffect::ToLobby { lobby, message }) => self.to_lobby(&lobby, message),
            Some(other) => self.refused.push(other),
            None => {}
        }
    }

    fn to_lobby(&mut self, lobby: &str, message: LobbyMessage) {
        let now = self.now;
        let state = self.lobbies.get_mut(lobby).expect("a lobby");
        let effects = LobbyActor.handle(message, state, now).expect("no clock trouble");
        self.lobby_effects(lobby, effects);
    }

    fn lobby_effects(&mut self, lobby: &str, effects: Vec<LobbyEffect>) {
        for effect in effects {
            match effect {
                LobbyEffect::ToConnection { conn, message } => self.to_session(conn, message),
                LobbyEffect::SpawnSim { minimum_tick_millis } => {
                    let arguments = SimArguments {
                        minimum_tick_duration: Duration::from_millis(minimum_tick_millis),
                    };
                    self.sims.insert(lobby.to_string(), SimActor.pre_start(arguments));
                }
                LobbyEffect::ToSim(message) => self.to_sim(lobby, message),
                LobbyEffect::ToServer(message) => self.to_server(message),
                LobbyEffect::Stop => {}
            }
        }
    }

    fn to_sim(&mut self, lobby: &str, message: SimMessage) {
        let now = self.now;
        let state = self.sims.get_mut(lobby).expect("a simulation");
        match SimActor.handle(message, state, now, stay).expect("a start in the future") {
            SimEffect::Publish { tick, .. } => self.published.push((lobby.to_string(), tick)),
            SimEffect::ScheduleStart { delay } => self.scheduled.push((lobby.to_string(), delay)),
            _ => {}
        }
    }

    fn start_instants_written_to(&self, conn: u64) -> Vec<Timestamp> {
        self.written
            .iter()
            .filter_map(|(to, message)| match message {
                ServerNetworkMessage::LobbyMessage(ServerLobbyMessage::SynchronizedGameStart {
                    start_at,
                }) if *to == conn => Some(*start_at),
                _ => None,
            })
            .collect()
    }
}

fn lobby_of_two() -> World {
    let mut world = World::new();
    world.connect(A);
    world.connect(B);
    world.client_sends(A, ClientNetworkMessage::create_lobby("alpha".to_string()));
    world.client_sends(B, ClientNetworkMessage::join_lobby("alpha".to_string()));
    world
}

#[test]
fn create_join_and_start() {
    let mut world = World::new();
    world.connect(A);
    world.connect(B);

    world.client_sends(A, ClientNetworkMessage::create_lobby("alpha".to_string()));
    assert_eq!(
        world.written,
        vec![(
            A,
            ServerNetworkMessage::LobbyMessage(ServerLobbyMessage::LobbyJoined {
                name: "alpha".to_string(),
                other_players: vec![],
            })
        )]
    );

    world.client_sends(B, ClientNetworkMessage::join_lobby("alpha".to_string()));
    let lobby = &world.lobbies["alpha"];
    assert_eq!(lobby.host_conn, A);
    assert_eq!(lobby.player_conns, vec![B]);
    assert_eq!(1 + lobby.player_conns.len(), 2);
    assert_eq!(world.written.len(), 2);
    assert_eq!(world.written[1].0, B);

    world.client_sends(B, ClientNetworkMessage::request_start_game());
    let to_a = world.start_instants_written_to(A);
    let to_b = world.start_instants_written_to(B);
    assert_eq!(to_a, vec![Timestamp { seconds: 1_700_000_005, nanos: 0 }]);
    assert_eq!(to_a, to_b);
    assert_eq!(world.scheduled, vec![("alpha".to_string(), 5_000_000_000)]);
    assert_eq!(world.sims["alpha"].phase(), SimPhase::Scheduled);
}

#[test]
fn a_second_lobby_of_the_same_name_leaves_the_first_alone() {
    let mut world = lobby_of_two();
    world.client_sends(B, ClientNetworkMessage::create_lobby("alpha".to_string()));
    assert_eq!(
        world.refused,
        vec![ServerEffect::LobbyNameTaken { name: "alpha".to_string(), host: B }]
    );
    assert_eq!(world.server.lobbies(), &vec!["alpha".to_string()]);
    assert_eq!(world.lobbies["alpha"].host_conn, A);
    assert_eq!(world.lobbies["alpha"].player_conns, vec![B]);
    assert_eq!(world.written.len(), 2);
}

#[test]
fn inputs_travel_from_the_client_to_the_simulation() {
    let mut world = lobby_of_two();
    world.client_sends(A, ClientNetworkMessage::request_start_game());
    world.to_sim("alpha", SimMessage::Start);
    world.client_sends(
        B,
        ClientNetworkMessage::input(Input {
            for_tick: 0,
            player_id: 1,
            input_type: InputType::CreateCircle { x: 4, y: 5 },
        }),
    );
    world.to_sim("alpha", SimMessage::Tick);
    assert_eq!(world.published, vec![("alpha".to_string(), 1)]);
    let circles = world.sims["alpha"].game().circles();
    assert_eq!(circles.len(), 1);
    assert_eq!((circles[0].player_id, circles[0].position), (1, Point { x: 4, y: 5 }));
}

#[test]
fn a_disconnect_during_the_match_ends_it() {
    let mut world = lobby_of_two();
    world.client_sends(A, ClientNetworkMessage::request_start_game());
    world.to_sim("alpha", SimMessage::Start);
    world.to_sim("alpha", SimMessage::Tick);
    world.to_sim("alpha", SimMessage::Tick);
    assert_eq!(world.published, vec![("alpha".to_string(), 1), ("alpha".to_string(), 2)]);

    world.disconnect(B);
    assert!(world.sessions[&B].stopped);
    assert!(world.lobbies["alpha"].closed);
    assert_eq!(world.sims["alpha"].phase(), SimPhase::Stopped);
    assert!(world.server.lobbies().is_empty());
    assert_eq!(world.server.connection_actors(), &vec![A]);

    for _ in 0..5 {
        world.to_sim("alpha", SimMessage::Tick);
    }
    assert_eq!(world.published.len(), 2);
    assert_eq!(world.sims["alpha"].current_tick(), 2);

    let written = world.written.len();
    world.client_sends(A, ClientNetworkMessage::request_start_game());
    assert_eq!(world.written.len(), written);
}

#[test]
fn a_disconnect_of_the_host_ends_the_match_too() {
    let mut world = lobby_of_two();
    world.client_sends(A, ClientNetworkMessage::request_start_game());
    world.to_sim("alpha", SimMessage::Start);
    world.disconnect(A);
    assert!(world.lobbies["alpha"].closed);
    world.to_sim("alpha", SimMessage::Tick);
    assert!(world.published.is_empty());
}
