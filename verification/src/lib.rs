//! Resolution of Steam application ids to titles through a cache file that is
//! kept on disk, refreshed when it has grown stale and dropped on demand.
//!
//! The library never touches the disk, the clock or the network. It decides:
//! a caller performs each [`protocol::Action`] that the cache asks for and
//! reports back with a [`protocol::Event`].
//!
//! - [`steam_games`]: the cache manager, the freshness rule and the steps of
//!   a query.
//! - [`protocol`]: the actions and events that pass between a query and its
//!   caller.
//! - [`fetcher`]: from the answer of Steam's application-list endpoint to the
//!   catalog.
//! - [`catalog`]: the catalog and the text of the cache file.
//! - [`json`]: JSON documents.
//! - [`laws`]: what holds of every query, proved.
//! - [`listing`]: which directory entries are named after an application.
//! - [`cli`]: the options of the command line.

pub mod catalog;
pub mod cli;
pub mod fetcher;
pub mod json;
pub mod laws;
pub mod listing;
pub mod protocol;
pub mod steam_games;
