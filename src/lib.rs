//! Mirrors the fronting members of a plural system into the profile status of
//! third-party platforms: the status formatter, the per-platform adapter state,
//! the per-user worker cycle and the supervisor that owns the workers.

pub mod text;
pub mod database;
pub mod plurality;
pub mod users;
pub mod updater;
pub mod worker;
pub mod manager;
pub mod vrchat_auth;
pub mod fronting_status;
