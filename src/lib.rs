//! Deterministic rollback core of a two-player arena game: input encoding,
//! state checksums, the rollback registry, session planning, the round
//! lifecycle and the per-tick simulation step.
pub mod args;
pub mod checksum;
pub mod components;
pub mod input;
pub mod registry;
pub mod session;
pub mod sim;
