//! The actor task's lifecycle decisions and its scope capabilities.
pub mod actor_loop;
pub mod scope;
pub mod shutdown;
