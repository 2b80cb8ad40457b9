//! Verified core of a one-time bulk migration that turns normalized
//! relational rows (posts, reactions, polls, edit history, attachments,
//! follow edges) into denormalized wide records for a column-family
//! store, and replicates each post record into every local follower's
//! home timeline.
//!
//! The modules here hold the logic of that pipeline — denormalization,
//! follower resolution, timeline fan-out, progress accounting — as
//! verified functions over plain values. The surrounding driver performs
//! the actual reads and writes and hands rows in and records out.

pub mod conn;
pub mod denorm;
pub mod fanout;
pub mod laws;
pub mod model;
pub mod pipeline;
pub mod progress;
pub mod records;
