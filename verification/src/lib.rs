//! Snowflake-style unique id generation.
//!
//! A generator packs a millisecond timestamp, a datacenter id, a worker id
//! and a per-millisecond sequence counter into one 64-bit integer, so that
//! ids issued by one generator are strictly increasing and ids issued by
//! generators with distinct identities never collide.

mod clock;
pub mod generator;
pub mod laws;

pub use generator::IdError;
pub use generator::IdParts;
pub use generator::Snowflake;
pub use generator::StepOutcome;
pub use generator::decode_id;
