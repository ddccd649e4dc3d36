//! An in-memory workflow registry with the command layer of a small
//! desktop back end: creating and looking up tracked workflows, building
//! AI-bridge command and response records, and reporting process metadata.

pub mod bridge;
pub mod commands;
mod idgen;
pub mod registry;
pub mod system;
pub mod workflow;
