//! One snapshot cache per external source, with the rules that turn what the
//! source reported into snapshots.
pub mod discord;
pub mod icloud;
pub mod last_fm;
pub mod steam;
