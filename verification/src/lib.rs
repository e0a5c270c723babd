//! Merge orchestration for a downstream fork: repository identities, a
//! deferred command queue and the pipeline that merges patch branches.

pub mod command_queue;
pub mod config;
pub mod error;
pub mod identifier;
pub mod pipeline;
pub mod registry;
pub mod repo;
pub mod session;
pub mod text;
