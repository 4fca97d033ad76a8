//! What a client keeps and decides between the server and its user interface.

use crate::shared_data::{Input, InputType, ServerLobbyMessage, ServerNetworkMessage};
use crate::sim::game::{Circle, Game, Point};
use vstd::prelude::*;

verus! {

/// The player id under which a client submits its inputs.
pub const LOCAL_PLAYER_ID: i32 = 0;

/// The lobby as the client knows it.
#[derive(Debug, Clone, PartialEq, Eq)]
pub enum LobbyState {
    NotJoined,
    Joined { name: String, players: Vec<String> },
}

/// A snapshot in the form the user interface reads: the ids of the circles
/// and, at the same index, where each one is.
#[derive(Debug, Clone, PartialEq, Eq)]
pub struct GameState {
    pub circle_ids: Vec<i64>,
    pub circle_positions: Vec<Point>,
}

/// Whether the state is that of a client just confirmed in the lobby `lobby`.
/// The other players are not listed.
pub open spec fn joined(state: LobbyState, lobby: String) -> bool {
    state matches LobbyState::Joined { name, players } && name == lobby && players@.len() == 0
}

/// The lobby state after a message from the server: a lobby confirmation puts
/// the client in that lobby; any other message changes nothing.
pub fn lobby_state_after(state: LobbyState, message: ServerNetworkMessage) -> (next: LobbyState)
    ensures
        match message {
            ServerNetworkMessage::LobbyMessage(
                ServerLobbyMessage::LobbyJoined { name, .. },
            ) => joined(next, name),
            _ => next == state,
        },
{
    match message {
        ServerNetworkMessage::LobbyMessage(
            ServerLobbyMessage::LobbyJoined { name, other_players: _ },
        ) => LobbyState::Joined { name, players: Vec::new() },
        _ => state,
    }
}

/// The input by which the local player asks for `input_type`, addressed to
/// the tick after the latest one seen. At the last tick number there is no
/// next tick and no input.
pub fn input_for_next_tick(latest_tick: i32, input_type: InputType) -> (input: Option<Input>)
    ensures
        input == if latest_tick < i32::MAX {
            Some(
                Input {
                    for_tick: (latest_tick + 1) as i32,
                    player_id: LOCAL_PLAYER_ID,
                    input_type,
                },
            )
        } else {
            None
        },
{
    if latest_tick < i32::MAX {
        Some(Input { for_tick: latest_tick + 1, player_id: LOCAL_PLAYER_ID, input_type })
    } else {
        None
    }
}

impl GameState {
    /// The snapshot of a game for the user interface.
    pub fn from(game: &Game) -> (state: GameState)
        ensures
            state.circle_ids@ == game@.map_values(|circle: Circle| circle.circle_id),
            state.circle_positions@ == game@.map_values(|circle: Circle| circle.position),
    {
        let circles = game.circles();
        let mut circle_ids: Vec<i64> = Vec::new();
        let mut circle_positions: Vec<Point> = Vec::new();
        let mut i: usize = 0;
        while i < circles.len()
            invariant
                i <= circles.len(),
                circles@ == game@,
                circle_ids@ == game@.take(i as int).map_values(|circle: Circle| circle.circle_id),
                circle_positions@ == game@.take(i as int).map_values(
                    |circle: Circle| circle.position,
                ),
            decreases circles.len() - i,
        {
            circle_ids.push(circles[i].circle_id);
            circle_positions.push(circles[i].position);
            i += 1;
            assert(circle_ids@ =~= game@.take(i as int).map_values(
                |circle: Circle| circle.circle_id,
            ));
            assert(circle_positions@ =~= game@.take(i as int).map_values(
                |circle: Circle| circle.position,
            ));
        }
        assert(game@.take(i as int) =~= game@);
        GameState { circle_ids, circle_positions }
    }
}

} // verus!
