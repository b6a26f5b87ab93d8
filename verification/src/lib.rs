//! Typed local actors with bounded messaging and structured supervision.
//!
//! This crate holds the scheduling and lifecycle core of the actor runtime:
//! spawn options, the reply scheduler with its exclusive lease, the fair
//! actor turn, and the lifecycle gate that orders shutdown requests.
//! Each decision is a verified function over plain values; the code that
//! polls futures and awaits drives these functions.
pub mod config;
pub mod containers;
pub mod lifecycle;
pub mod reply;
pub mod runtime;
pub mod scheduling;
