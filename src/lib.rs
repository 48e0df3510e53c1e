//! The local state engine of an agent: content hashing, the hash-linked
//! source chain, the agent and nucleus state slices with their reducers, and
//! the capability-gated call bridge.

pub mod hash;
pub mod error;
pub mod entry;
pub mod header;
pub mod pair;
pub mod table;
pub mod chain;
pub mod action;
pub mod agent;
pub mod nucleus;
pub mod call;
pub mod instance;
pub mod json;
