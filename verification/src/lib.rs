//! Core library of a multi-provider Git hosting client: provider adapters for
//! GitHub, GitLab and Gitea behind one capability interface, a multi-backend
//! credential store, a named-remote configuration registry, and the list
//! aggregation that enriches and filters bulk repository listings.

pub mod aggregate;
pub mod args;
pub mod colors;
pub mod commands;
pub mod config;
pub mod error;
pub mod factory;
pub mod gitea;
pub mod github;
pub mod gitlab;
pub mod log;
pub mod remote;
pub mod secrets;
pub mod strutil;
pub mod table;
