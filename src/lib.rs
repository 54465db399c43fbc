//! Synchronisation engine for a player's statistics and score history kept by a
//! remote rhythm-game service: decoding of the service's response envelope,
//! conversion of fetched records into stored rows, the join of the per-sync
//! fetches, identity resolution, the per-user cooldown and the least recently
//! synchronised pick, together with an in-memory store that states the
//! storage rules (insert-or-ignore, append-only history, referential integrity).
pub mod api;
pub mod cooldown;
pub mod models;
pub mod resolve;
pub mod store;
pub mod sync;
pub mod table;
pub mod text;
