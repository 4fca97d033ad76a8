//! The simulation: the game model and the engine that advances it tick by tick.

pub mod actor;
pub mod game;
pub mod tick_buffer;
pub mod tick_sequenced_stream;
