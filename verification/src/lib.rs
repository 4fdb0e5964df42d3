//! Keeps a pinned inventory of Helm charts up to date.
//!
//! The library holds the decisions of the updater: which published version of
//! a chart is proposed, which inventory entries are tracked, what a proposed
//! change looks like, and in which order the hosting platform is asked to
//! publish it. Fetching and sending are left to the caller.

pub mod config;
pub mod error;
pub mod fetch;
pub mod helm;
pub mod inventory;
pub mod pipeline;
pub mod publish;
pub mod version;
