//! A shard: one client's connection to a chat gateway.
//!
//! [`shard::Shard`] keeps what the client knows and decides what it does, and
//! [`gateway_event`] holds the events that go back and forth. [`rules`] spells out what a shard
//! does about each event, and [`laws`] states what follows over its life.
pub mod gateway_event;
pub mod laws;
pub mod rules;
pub mod shard;
pub mod text;

pub use shard::{
    run, Action, ConnectGoal, ConnectionState, Incoming, Shard, ShardCommand, ShardConnection,
    ShardEvent, ShardOptions,
};
