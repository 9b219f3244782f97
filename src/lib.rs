//! Tic-tac-toe rooms with wagers: board rules, the per-room state machine,
//! a room registry, and the contract entry points over an in-memory store.

pub mod cell;
pub mod board;
pub mod error;
pub mod room;
pub mod funds;
pub mod state;
pub mod msg;
pub mod contract;
