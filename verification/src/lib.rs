//! Authoritative, tick-synchronised simulation core for a small multiplayer game.
//!
//! The crate holds the decisions of the system as verified functions on plain
//! values: the game model, the per-tick input buffer, the tick sequencer, and the
//! session / lobby / supervisor state machines. Transport, timers, encoding and
//! the arithmetic of movement are supplied by the caller.
//!
//! - [`sim`]: the game, the engine that advances it tick by tick, and the
//!   sequencer that merges events with a clock.
//! - [`actors`]: the session, lobby and supervisor state machines.
//! - [`shared_data`], [`protos`]: the messages between client and server.
//! - [`client`]: what a client decides between the server and its interface.
//! - [`time`]: wall-clock instants as numbers.
//! - [`fifo`]: the queue of inputs waiting for one tick.

pub mod actors;
pub mod client;
pub mod fifo;
pub mod protos;
pub mod shared_data;
pub mod sim;
pub mod time;
