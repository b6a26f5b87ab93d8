//! Built-in reply concurrency profiles and the scheduler core.
//!
//! A finite limit bounds active replies.
//! At the limit, dispatch pauses before the next handler.
//! Every handler future runs on its actor task.
//! A reply may hold a scheduler lease that pauses every other reply.
pub mod profile;
pub mod queue;
pub mod runtime;
pub mod state;
pub mod wake;
